use apollo_federation_types::rover as apollo;
use rover_composition::binary::{
    version_debug_text, version_text, BinaryError, BuildOutput, ExecOutput, InstallSupergraph, InstallSupergraphError, SupergraphBinary,
};
use rover_composition::composition::{BuildErrors, BuildHint, CompositionError, PluginProvenance};
use rover_composition::version::{FederationVersion, Version};

const SUPERGRAPH_SDL: &str = "schema @link(url: \"https://specs.apollo.dev/link/v1.0\") { query: Query }\ntype Query { test: String! }";
const HINT: &str = "[UNUSED_ENUM_TYPE]: Enum type \"ShippingClass\" is defined but unused. It will be included in the supergraph with all the values appearing in any subgraph (\"as if\" it was only used as an output type).";

fn default_composition_json() -> String {
    format!(
        "{{\"Ok\":{{\"supergraphSdl\":{},\"hints\":[{{\"message\":{},\"code\":\"UNUSED_ENUM_TYPE\",\"nodes\":[],\"omittedNodesCount\":0}}]}}}}",
        serde_json::to_string(SUPERGRAPH_SDL).unwrap(),
        serde_json::to_string(HINT).unwrap()
    )
}

/// Reads what the plugin wrote as the library's build result, as the application does.
fn parse_build_result(text: &str) -> Result<Result<BuildOutput, BuildErrors>, String> {
    let parsed: apollo::BuildResult = serde_json::from_str(text).map_err(|e| e.to_string())?;
    Ok(match parsed {
        Ok(output) => Ok(BuildOutput {
            supergraph_sdl: output.supergraph_sdl,
            hints: output
                .hints
                .into_iter()
                .map(|h| BuildHint {
                    message: h.message,
                    code: h.code,
                    nodes: h.nodes.map(|n| n.into_iter().map(|_| panic!("no locations in these tests")).collect()),
                    omitted_nodes_count: h.omitted_nodes_count,
                    other: h.other,
                })
                .collect(),
        }),
        Err(errors) => Err(BuildErrors { build_errors: vec![], is_config: errors.is_config }),
    })
}

fn fed_two_nine() -> Version {
    Version::release(2, 9, 0)
}

fn binary(path: &str, version: Version) -> SupergraphBinary {
    SupergraphBinary::new(PluginProvenance { path: path.to_string(), version })
}

fn exited(code: i32, stdout: &[u8], stderr: &[u8]) -> Result<ExecOutput, String> {
    Ok(ExecOutput { exit_code: Some(code), stdout: stdout.to_vec(), stderr: stderr.to_vec() })
}

#[test]
fn test_compose_success() {
    let supergraph_binary = binary("/supergraph", fed_two_nine());
    let args = supergraph_binary.compose_args(&"/supergraph_config.yaml".to_string());
    assert_eq!(args, vec!["compose".to_string(), "/supergraph_config.yaml".to_string()]);

    let stdout = default_composition_json();
    let text = supergraph_binary.compose_output(exited(0, stdout.as_bytes(), b"")).unwrap();
    let result = supergraph_binary.validate_composition(parse_build_result(&text)).unwrap();
    assert_eq!(result.supergraph_sdl, SUPERGRAPH_SDL);
    assert_eq!(result.hints.len(), 1);
    assert_eq!(result.hints[0].message, HINT);
    assert_eq!(result.hints[0].code.as_deref(), Some("UNUSED_ENUM_TYPE"));
    assert_eq!(result.hints[0].omitted_nodes_count, Some(0));
    assert!(matches!(
        result.federation_version,
        FederationVersion::ExactFedTwo(v) if v.major == 2 && v.minor == 9 && v.patch == 0
    ));
}

#[test]
fn composition_failures_name_the_plugin() {
    let supergraph_binary = binary("/supergraph", fed_two_nine());
    assert!(matches!(
        supergraph_binary.compose_output(Err("not found".to_string())),
        Err(CompositionError::Binary { error, provenance }) if error == "not found" && provenance.path == "/supergraph"
    ));
    assert!(matches!(
        supergraph_binary.compose_output(exited(2, b"out", b"err")),
        Err(CompositionError::BinaryExit { exit_code: Some(2), stdout, stderr, .. }) if stdout == "out" && stderr == "err"
    ));
    // Bytes that are not UTF-8 are refused with the text `std::str::from_utf8` gives.
    let Err(CompositionError::InvalidOutput { error, .. }) = supergraph_binary.compose_output(exited(0, &[0xff, 0xfe], b""))
    else {
        panic!("expected invalid output");
    };
    assert!(error.contains("Utf8Error"));
    // Errors the plugin reports exit with 1 and are still read.
    assert!(supergraph_binary.compose_output(exited(1, b"{}", b"")).is_ok());

    let build_failure = supergraph_binary.validate_composition(Ok(Err(BuildErrors { build_errors: vec![], is_config: true })));
    assert!(matches!(
        build_failure,
        Err(CompositionError::Build { source, federation_version: FederationVersion::ExactFedTwo(_), provenance: Some(_) }) if source.is_config
    ));
    assert!(matches!(
        supergraph_binary.validate_composition(parse_build_result("invalid")),
        Err(CompositionError::InvalidOutput { .. })
    ));
}

#[test]
fn the_plugin_version_gives_the_federation_version() {
    assert!(matches!(
        binary("/p", Version::release(0, 36, 1)).federation_version(),
        Ok(FederationVersion::ExactFedOne(v)) if v.minor == 36
    ));
    assert!(matches!(binary("/p", fed_two_nine()).federation_version(), Ok(FederationVersion::ExactFedTwo(_))));
    let Err(CompositionError::InvalidInput { error, .. }) = binary("/p", Version::release(3, 0, 1)).federation_version()
    else {
        panic!("expected invalid input");
    };
    assert_eq!(
        error,
        "UnsupportedFederationVersion { version: SupergraphVersion { version: Version { major: 3, minor: 0, patch: 1 } } }"
    );
}

#[test]
fn versions_are_described_as_semvers_debug_text_does() {
    let plain = version_debug_text(&Version::release(2, 10, 0));
    assert_eq!(plain, format!("{:?}", semver::Version::new(2, 10, 0)));
    let mut pre = Version::release(2, 12, 0);
    pre.pre = "preview.7".to_string();
    pre.build = "build.5".to_string();
    let expected = semver::Version::parse("2.12.0-preview.7+build.5").unwrap();
    assert_eq!(version_debug_text(&pre), format!("{expected:?}"));
}

#[test]
fn versions_are_written_as_semver_does() {
    assert_eq!(version_text(&Version::release(2, 10, 0)), "2.10.0");
    let pre = Version { major: 2, minor: 12, patch: 0, pre: "preview.7".to_string(), build: "abc".to_string() };
    assert_eq!(version_text(&pre), "2.12.0-preview.7+abc");
}

#[test]
fn installing_needs_the_license_only_for_federation_two() {
    let plugin = || Ok(PluginProvenance { path: "/bin/supergraph-v2.9.0".to_string(), version: fed_two_nine() });
    let fed_two = InstallSupergraph::new(FederationVersion::ExactFedTwo(fed_two_nine()));
    assert!(fed_two.requires_elv2_license());
    assert!(matches!(
        fed_two.install(Err("declined".to_string()), plugin()),
        Err(InstallSupergraphError::LicenseNotAccepted)
    ));
    let installed = fed_two.install(Ok(()), plugin()).unwrap();
    assert_eq!(installed.exe, "/bin/supergraph-v2.9.0");
    assert_eq!(installed.version.version.minor, 9);

    let fed_one = InstallSupergraph::new(FederationVersion::LatestFedOne);
    assert!(!fed_one.requires_elv2_license());
    assert!(fed_one.install(Err("declined".to_string()), plugin()).is_ok());
    assert!(matches!(
        fed_one.install(Ok(()), Err(InstallSupergraphError::Plugin { failure: "offline".to_string() })),
        Err(InstallSupergraphError::Plugin { failure }) if failure == "offline"
    ));
}

#[test]
fn connector_commands_are_spelled_out() {
    let b = binary("/supergraph", fed_two_nine());
    assert_eq!(
        b.run_connector_args("s.graphql".to_string(), "c1".to_string(), "{}".to_string()),
        vec!["run-connector", "--schema", "s.graphql", "--connector-id", "c1", "--variables", "{}"]
    );
    assert_eq!(
        b.test_connector_args(Some("t.yaml".to_string()), None, true, Some("s.graphql".to_string()), None, false, true),
        vec!["test-connectors", "--no-fail-fast", "--quiet", "--file", "t.yaml", "--schema", "s.graphql"]
    );
    assert_eq!(
        b.generate_connector_args(Some("api".to_string()), None, Some("out".to_string()), true, false),
        vec!["generate-connector-schema", "--name", "api", "--output-dir", "out", "--verbose"]
    );
    assert_eq!(b.list_connector_args("s.graphql".to_string()), vec!["list-connectors", "--schema", "s.graphql"]);
    assert_eq!(b.analyze_clean_args(), vec!["analyze-for-connector", "clean"]);
    assert_eq!(b.analyze_interactive_args(Some(4000)), vec!["analyze-for-connector", "interactive", "--port", "4000"]);
    assert_eq!(b.analyze_interactive_args(None), vec!["analyze-for-connector", "interactive"]);
    assert_eq!(
        b.analyze_curl_args(
            "http://api".to_string(),
            vec!["a: 1".to_string(), "b: 2".to_string()],
            Some("POST".to_string()),
            Some(30),
            None,
            Some("dir".to_string()),
            false,
            true,
        ),
        vec![
            "analyze-for-connector", "curl", "http://api", "-H", "a: 1", "-H", "b: 2", "-X", "POST", "--timeout", "30",
            "--analysis-dir", "dir", "--verbose"
        ]
    );
}

#[test]
fn filling_schema_gaps_needs_a_recent_plugin() {
    let recent = binary("/supergraph", Version::release(2, 12, 0));
    assert_eq!(recent.load_spec_for_file_args("s.graphql".to_string()).unwrap(), vec!["fill-schema-gaps", "s.graphql"]);
    let exact = binary(
        "/supergraph",
        Version { major: 2, minor: 12, patch: 0, pre: "preview.7".to_string(), build: String::new() },
    );
    assert!(exact.load_spec_for_file_args("s.graphql".to_string()).is_ok());
    // An earlier pre-release of the same version comes before it.
    let earlier = binary(
        "/supergraph",
        Version { major: 2, minor: 12, patch: 0, pre: "preview.6".to_string(), build: String::new() },
    );
    assert!(matches!(
        earlier.load_spec_for_file_args("s.graphql".to_string()),
        Err(BinaryError::UnsupportedVersion { minimum, .. }) if minimum.pre == "preview.7"
    ));
    assert!(binary("/supergraph", fed_two_nine()).load_spec_for_file_args("s.graphql".to_string()).is_err());
}

#[test]
fn the_diff_of_filled_schema_gaps_is_read_from_json() {
    let b = binary("/supergraph", Version::release(2, 12, 0));
    assert_eq!(b.load_spec_for_file_output(exited(0, br#"{"diff":"+ type A"}"#, b"")).unwrap(), "+ type A");
    assert!(matches!(
        b.load_spec_for_file_output(exited(0, br#"{"other":1}"#, b"")),
        Err(BinaryError::InvalidOutput { error, .. }) if error == "Missing 'diff' field in output"
    ));
    assert!(matches!(
        b.load_spec_for_file_output(exited(0, b"not json", b"")),
        Err(BinaryError::InvalidOutput { error, .. }) if error.contains("expected")
    ));
    assert!(matches!(
        b.execute(exited(3, b"", b"boom")),
        Err(BinaryError::Exit { exit_code: Some(3), stderr, .. }) if stderr == "boom"
    ));
    assert!(matches!(b.execute(Err("missing".to_string())), Err(BinaryError::Run { binary, .. }) if binary == "/supergraph"));
}

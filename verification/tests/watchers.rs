use apollo_federation_types::rover as apollo;
use rover_composition::binary::{BuildOutput, ExecOutput, SupergraphBinary};
use rover_composition::composition::{
    BuildErrors, BuildHint, BuildMessageLocation, BuildMessagePoint, CompositionError, CompositionSuccess,
    FederationUpdaterConfig, PluginProvenance,
};
use rover_composition::config::{SchemaSource, SubgraphConfig, SupergraphConfigYaml};
use rover_composition::diff::SupergraphConfigDiff;
use rover_composition::events::{
    CompositionEvent, CompositionInputEvent, SubgraphEvent, SubgraphRoutingUrlChanged, SubgraphSchemaChanged,
    SubgraphSchemaRemoved,
};
use rover_composition::name_map::NameMap;
use rover_composition::subgraph::{FullyResolvedSubgraph, LazilyResolvedSubgraph, ResolveSubgraphError};
use rover_composition::supergraph::{FullyResolvedSupergraphConfig, LazilyResolvedSupergraphConfig};
use rover_composition::version::{FederationVersion, Version};
use rover_composition::resolution::SchemaFetch;
use rover_composition::watchers::{
    collect_watchers, routing_url_needs_fetch, subgraph_actions, subgraph_watcher_actions, subgraph_watcher_kind,
    updated_routing_url, CompositionStep, CompositionWatcher, ConfigChange, FederationWatcher, InitialAction,
    RunComposition, SubgraphAction, SubgraphHandles, SubgraphWatcher, SubgraphWatcherKind,
    SupergraphConfigSerialisationError, SupergraphConfigWatcher,
};

const SUPERGRAPH_SDL: &str = "schema @link(url: \"https://specs.apollo.dev/link/v1.0\") { query: Query }\ntype Query { test: String! }";
const HINT: &str = "[UNUSED_ENUM_TYPE]: Enum type \"ShippingClass\" is defined but unused. It will be included in the supergraph with all the values appearing in any subgraph (\"as if\" it was only used as an output type).";

fn default_composition_json() -> String {
    let hint = serde_json::Value::Object(
        [
            ("message".to_string(), serde_json::Value::String(HINT.to_string())),
            ("code".to_string(), serde_json::Value::String("UNUSED_ENUM_TYPE".to_string())),
            ("nodes".to_string(), serde_json::Value::Array(vec![])),
            ("omittedNodesCount".to_string(), serde_json::Value::from(0u32)),
        ]
        .into_iter()
        .collect(),
    );
    let ok = serde_json::Value::Object(
        [
            ("supergraphSdl".to_string(), serde_json::Value::String(SUPERGRAPH_SDL.to_string())),
            ("hints".to_string(), serde_json::Value::Array(vec![hint])),
        ]
        .into_iter()
        .collect(),
    );
    let result = serde_json::Value::Object([("Ok".to_string(), ok)].into_iter().collect());
    serde_json::to_string(&result).unwrap()
}

fn point(p: apollo_federation_types::build_plugin::BuildMessagePoint) -> BuildMessagePoint {
    BuildMessagePoint { start: p.start, end: p.end, column: p.column, line: p.line }
}

fn location(l: apollo_federation_types::build_plugin::BuildMessageLocation) -> BuildMessageLocation {
    BuildMessageLocation {
        subgraph: l.subgraph,
        source: l.source,
        start: l.start.map(point),
        end: l.end.map(point),
        other: l.other,
    }
}

/// Reads what the plugin wrote as the library's build result, as the application does.
fn parse_build_result(text: &str) -> Result<Result<BuildOutput, BuildErrors>, String> {
    let parsed: apollo::BuildResult = serde_json::from_str(text).map_err(|e| e.to_string())?;
    Ok(match parsed {
        Ok(output) => Ok(BuildOutput {
            supergraph_sdl: output.supergraph_sdl,
            hints: output
                .hints
                .into_iter()
                .map(|h| BuildHint {
                    message: h.message,
                    code: h.code,
                    nodes: h.nodes.map(|n| n.into_iter().map(location).collect()),
                    omitted_nodes_count: h.omitted_nodes_count,
                    other: h.other,
                })
                .collect(),
        }),
        Err(errors) => Err(BuildErrors { build_errors: vec![], is_config: errors.is_config }),
    })
}

/// The YAML text a supergraph config of inline SDL is written as.
fn yaml_text(config: SupergraphConfigYaml) -> String {
    let mut subgraphs = std::collections::BTreeMap::new();
    for (name, subgraph) in config.subgraphs.into_entries() {
        let SchemaSource::Sdl { sdl } = subgraph.schema else {
            panic!("only inline SDL is written here");
        };
        subgraphs.insert(
            name,
            apollo_federation_types::config::SubgraphConfig {
                routing_url: subgraph.routing_url,
                schema: apollo_federation_types::config::SchemaSource::Sdl { sdl },
            },
        );
    }
    let federation_version = config.federation_version.map(|v| match v {
        FederationVersion::ExactFedTwo(v) => apollo_federation_types::config::FederationVersion::ExactFedTwo(
            semver::Version::new(v.major, v.minor, v.patch),
        ),
        other => panic!("unexpected federation version {other:?}"),
    });
    serde_yaml::to_string(&apollo_federation_types::config::SupergraphConfig::new(subgraphs, federation_version)).unwrap()
}

fn version_2_8_0() -> Version {
    Version::release(2, 8, 0)
}

fn binary(path: &str) -> SupergraphBinary {
    SupergraphBinary::new(PluginProvenance { path: path.to_string(), version: version_2_8_0() })
}

fn empty_config() -> FullyResolvedSupergraphConfig {
    FullyResolvedSupergraphConfig {
        origin_path: None,
        subgraphs: NameMap::new(),
        federation_version: FederationVersion::ExactFedTwo(version_2_8_0()),
    }
}

/// Runs one composition with `binary`, the plugin writing `stdout`, and reports the outcome.
fn compose(binary: &SupergraphBinary, stdout: &str) -> CompositionEvent {
    let output = binary.compose_output(Ok(ExecOutput {
        exit_code: Some(0),
        stdout: stdout.as_bytes().to_vec(),
        stderr: vec![],
    }));
    let outcome = match output {
        Ok(text) => binary.validate_composition(parse_build_result(&text)),
        Err(e) => Err(e),
    };
    CompositionWatcher::composition_finished(outcome)
}

#[test]
fn composition_test_runcomposition_handle() {
    for (composition_error, composition_output) in [(false, default_composition_json()), (true, "invalid".to_string())] {
        let mut watcher = CompositionWatcher::new(empty_config(), binary("some/binary"), None);
        assert!(matches!(CompositionWatcher::initial_action(NameMap::new(), false), InitialAction::Nothing));

        let subgraph_name = "subgraph-name".to_string();
        let subgraph_sdl = "type Query { test: String! }".to_string();
        let reaction = watcher.handle(CompositionInputEvent::Subgraph(SubgraphEvent::SubgraphSchemaChanged(
            SubgraphSchemaChanged::new(
                subgraph_name.clone(),
                subgraph_sdl.clone(),
                "https://example.com".to_string(),
                SchemaSource::Sdl { sdl: subgraph_sdl.clone() },
            ),
        )));

        // A subgraph added event comes first, then composition starts.
        assert!(matches!(&reaction.emit, Some(CompositionEvent::SubgraphAdded(a)) if a.name == subgraph_name));
        assert!(matches!(reaction.next, CompositionStep::Compose));

        // The supergraph config written before composing holds the new subgraph.
        let written = watcher.supergraph_config.to_supergraph_config_yaml();
        assert_eq!(written.subgraphs.len(), 1);
        let entry = written.subgraphs.get(&subgraph_name).unwrap();
        assert_eq!(entry.routing_url.as_deref(), Some("https://example.com"));
        assert!(matches!(&entry.schema, SchemaSource::Sdl { sdl } if *sdl == subgraph_sdl));
        assert!(matches!(
            &written.federation_version,
            Some(FederationVersion::ExactFedTwo(v)) if v.major == 2 && v.minor == 8 && v.patch == 0
        ));

        assert_eq!(
            yaml_text(watcher.supergraph_config.to_supergraph_config_yaml()),
            format!(
                "subgraphs:\n  {subgraph_name}:\n    routing_url: https://example.com\n    schema:\n      sdl: '{subgraph_sdl}'\nfederation_version: =2.8.0\n"
            )
        );

        let event = compose(&watcher.supergraph_binary, &composition_output);
        if !composition_error {
            let CompositionEvent::Success(success) = event else {
                panic!("expected a success, got {event:?}");
            };
            assert_eq!(success.supergraph_sdl, SUPERGRAPH_SDL);
            assert_eq!(success.hints.len(), 1);
            assert_eq!(success.hints[0].message, HINT);
            assert_eq!(success.hints[0].code.as_deref(), Some("UNUSED_ENUM_TYPE"));
            assert_eq!(success.hints[0].nodes.as_ref().map(|n| n.len()), Some(0));
            assert_eq!(success.hints[0].omitted_nodes_count, Some(0));
            assert!(matches!(
                &success.federation_version,
                FederationVersion::ExactFedTwo(v) if v.major == 2 && v.minor == 8 && v.patch == 0
            ));
        } else {
            assert!(matches!(event, CompositionEvent::Error(CompositionError::InvalidOutput { .. })));
        }
    }
}

#[test]
fn run_composition_test_runcomposition_handle() {
    for (composition_error, composition_output) in [(false, default_composition_json()), (true, "invalid".to_string())] {
        let mut config = empty_config();
        config.origin_path = Some("/tmp/supergraph_config.yaml".to_string());
        let mut watcher = CompositionWatcher::new(config, binary("/tmp/supergraph"), None);

        // Any change starts a composition.
        let reaction = watcher.handle(CompositionInputEvent::Recompose);
        assert!(reaction.emit.is_none());
        assert!(matches!(reaction.next, CompositionStep::Compose));

        let event = compose(&watcher.supergraph_binary, &composition_output);
        if !composition_error {
            assert!(matches!(event, CompositionEvent::Success(..)));
        } else {
            assert!(matches!(event, CompositionEvent::Error(..)));
        }
    }
}

#[test]
fn a_known_subgraph_changing_its_schema_is_not_added_again() {
    let mut watcher = CompositionWatcher::new(empty_config(), binary("some/binary"), None);
    let change = |sdl: &str| {
        CompositionInputEvent::Subgraph(SubgraphEvent::SubgraphSchemaChanged(SubgraphSchemaChanged::new(
            "products".to_string(),
            sdl.to_string(),
            "http://localhost:4001".to_string(),
            SchemaSource::Sdl { sdl: sdl.to_string() },
        )))
    };
    assert!(matches!(watcher.handle(change("type Query { a: Int }")).emit, Some(CompositionEvent::SubgraphAdded(_))));
    let again = watcher.handle(change("type Query { b: Int }"));
    assert!(again.emit.is_none());
    assert!(matches!(again.next, CompositionStep::Compose));
    assert_eq!(watcher.supergraph_config.subgraphs.len(), 1);
    assert_eq!(watcher.supergraph_config.subgraphs.get(&"products".to_string()).unwrap().schema, "type Query { b: Int }");
}

#[test]
fn a_routing_url_change_composes_only_when_the_url_differs() {
    let mut watcher = CompositionWatcher::new(empty_config(), binary("some/binary"), None);
    watcher.handle(CompositionInputEvent::Subgraph(SubgraphEvent::SubgraphSchemaChanged(SubgraphSchemaChanged::new(
        "products".to_string(),
        "type Query { a: Int }".to_string(),
        "http://localhost:4001".to_string(),
        SchemaSource::Sdl { sdl: "type Query { a: Int }".to_string() },
    ))));
    let url_change = |url: &str| {
        CompositionInputEvent::Subgraph(SubgraphEvent::RoutingUrlChanged(SubgraphRoutingUrlChanged {
            name: "products".to_string(),
            routing_url: Some(url.to_string()),
        }))
    };
    assert!(matches!(watcher.handle(url_change("http://localhost:4001")).next, CompositionStep::Idle));
    assert!(matches!(watcher.handle(url_change("http://localhost:4002")).next, CompositionStep::Compose));
    assert_eq!(
        watcher.supergraph_config.subgraphs.get(&"products".to_string()).unwrap().routing_url.as_deref(),
        Some("http://localhost:4002")
    );
    let unknown = watcher.handle(CompositionInputEvent::Subgraph(SubgraphEvent::RoutingUrlChanged(
        SubgraphRoutingUrlChanged { name: "reviews".to_string(), routing_url: None },
    )));
    assert!(matches!(unknown.next, CompositionStep::Idle));
    assert_eq!(watcher.supergraph_config.subgraphs.len(), 1);
}

#[test]
fn a_removed_subgraph_is_reported_and_recomposed_without() {
    let mut watcher = CompositionWatcher::new(empty_config(), binary("some/binary"), None);
    watcher.handle(CompositionInputEvent::Subgraph(SubgraphEvent::SubgraphSchemaChanged(SubgraphSchemaChanged::new(
        "products".to_string(),
        "type Query { a: Int }".to_string(),
        "http://localhost:4001".to_string(),
        SchemaSource::Sdl { sdl: "type Query { a: Int }".to_string() },
    ))));
    let reaction = watcher.handle(CompositionInputEvent::Subgraph(SubgraphEvent::SubgraphRemoved(SubgraphSchemaRemoved {
        name: "products".to_string(),
        resolution_error: None,
    })));
    assert!(matches!(&reaction.emit, Some(CompositionEvent::SubgraphRemoved(r)) if r.name == "products" && r.resolution_error.is_none()));
    assert!(matches!(reaction.next, CompositionStep::Compose));
    assert!(watcher.supergraph_config.subgraphs.is_empty());
}

#[test]
fn a_federation_change_installs_only_when_updates_are_allowed() {
    let target = || FederationVersion::ExactFedTwo(Version::release(2, 9, 0));
    let mut updating = CompositionWatcher::new(empty_config(), binary("some/binary"), Some(FederationUpdaterConfig { skip_update: true }));
    let reaction = updating.handle(CompositionInputEvent::Federation(target()));
    assert!(matches!(
        reaction.next,
        CompositionStep::Install { federation_version: FederationVersion::ExactFedTwo(v), skip_update: true } if v.minor == 9
    ));
    let installed = updating.install_finished(Ok(SupergraphBinary::new(PluginProvenance {
        path: "/bin/supergraph-v2.9.0".to_string(),
        version: Version::release(2, 9, 0),
    })));
    assert!(matches!(installed.next, CompositionStep::Compose));
    assert_eq!(updating.supergraph_binary.exe, "/bin/supergraph-v2.9.0");

    let failed = updating.install_finished(Err(rover_composition::binary::InstallSupergraphError::LicenseNotAccepted));
    assert!(matches!(
        failed.emit,
        Some(CompositionEvent::Error(CompositionError::ErrorUpdatingFederationVersion(_)))
    ));
    assert_eq!(updating.supergraph_binary.exe, "/bin/supergraph-v2.9.0");

    let mut fixed = CompositionWatcher::new(empty_config(), binary("some/binary"), None);
    assert!(matches!(fixed.handle(CompositionInputEvent::Federation(target())).next, CompositionStep::Compose));
}

#[test]
fn initial_resolution_errors_are_reported_before_anything_composes() {
    let mut errors = NameMap::new();
    errors.insert("broken".to_string(), ResolveSubgraphError::SupergraphConfigMissing);
    assert!(matches!(
        CompositionWatcher::initial_action(errors, true),
        InitialAction::Report(CompositionEvent::Error(CompositionError::ResolvingSubgraphsError { .. }))
    ));
    assert!(matches!(CompositionWatcher::initial_action(NameMap::new(), true), InitialAction::Compose));
}

fn watched_subgraphs() -> Vec<(&'static str, SchemaSource)> {
    vec![
        ("file", SchemaSource::File { file: "/path/to/file".to_string() }),
        (
            "introspection",
            SchemaSource::SubgraphIntrospection {
                subgraph_url: "http://subgraph_url".to_string(),
                introspection_headers: None,
            },
        ),
        ("subgraph", SchemaSource::Subgraph { graphref: "graphref".to_string(), subgraph: "subgraph".to_string() }),
        ("sdl", SchemaSource::Sdl { sdl: "sdl".to_string() }),
    ]
}

#[test]
fn test_subgraph_watchers_new() {
    let mut outcomes: NameMap<Result<SubgraphWatcher, ResolveSubgraphError>> = NameMap::new();
    for (name, schema) in watched_subgraphs() {
        let subgraph = LazilyResolvedSubgraph {
            name: format!("{}-subgraph-name", if name == "subgraph" { "remote" } else { name }),
            routing_url: None,
            schema,
        };
        outcomes.insert(name.to_string(), Ok(SubgraphWatcher::new(&subgraph)));
    }
    let watchers = collect_watchers(outcomes).expect("every watcher is made");
    assert_eq!(watchers.len(), 4);
    assert!(watchers.contains_key(&"file".to_string()));
    assert!(watchers.contains_key(&"introspection".to_string()));
    assert!(watchers.contains_key(&"sdl".to_string()));
    assert!(watchers.contains_key(&"subgraph".to_string()));
    let kind = |name: &str| &watchers.get(&name.to_string()).unwrap().watcher;
    assert!(matches!(kind("file"), SubgraphWatcherKind::File(p) if p == "/path/to/file"));
    assert!(matches!(kind("introspection"), SubgraphWatcherKind::Introspect));
    assert!(matches!(kind("subgraph"), SubgraphWatcherKind::Once));
    assert!(matches!(kind("sdl"), SubgraphWatcherKind::Once));
}

#[test]
fn test_subgraphwatchers_new() {
    let mut outcomes: NameMap<Result<SubgraphWatcherKind, ResolveSubgraphError>> = NameMap::new();
    for (name, schema) in watched_subgraphs() {
        outcomes.insert(name.to_string(), Ok(subgraph_watcher_kind(&schema)));
    }
    let watchers = collect_watchers(outcomes).expect("every watcher is made");
    assert_eq!(4, watchers.len());
    assert!(watchers.contains_key(&"file".to_string()));
    assert!(watchers.contains_key(&"introspection".to_string()));
    assert!(watchers.contains_key(&"sdl".to_string()));
    assert!(watchers.contains_key(&"subgraph".to_string()));
}

#[test]
fn a_watcher_that_cannot_be_made_fails_the_session() {
    let mut outcomes: NameMap<Result<SubgraphWatcherKind, ResolveSubgraphError>> = NameMap::new();
    outcomes.insert("sdl".to_string(), Ok(SubgraphWatcherKind::Once));
    outcomes.insert("remote".to_string(), Err(ResolveSubgraphError::SupergraphConfigMissing));
    let errors = collect_watchers(outcomes).expect_err("one watcher failed");
    assert_eq!(errors.len(), 1);
    assert!(errors.contains_key(&"remote".to_string()));
}

#[test]
fn routing_urls_of_updated_subgraphs() {
    let registry = SchemaSource::Subgraph { graphref: "g@v".to_string(), subgraph: "s".to_string() };
    let introspected = SchemaSource::SubgraphIntrospection {
        subgraph_url: "http://localhost:4001/graphql".to_string(),
        introspection_headers: None,
    };
    assert!(routing_url_needs_fetch(&None, &registry));
    assert!(!routing_url_needs_fetch(&Some("http://x".to_string()), &registry));
    assert!(!routing_url_needs_fetch(&None, &introspected));

    assert_eq!(updated_routing_url(Some("http://own".to_string()), &registry, None).as_deref(), Some("http://own"));
    assert_eq!(
        updated_routing_url(None, &introspected, None).as_deref(),
        Some("http://localhost:4001/graphql")
    );
    let fetched = FullyResolvedSubgraph::new(
        "s".to_string(),
        "type Query { a: Int }".to_string(),
        Some("http://registry".to_string()),
        SchemaSource::Sdl { sdl: "type Query { a: Int }".to_string() },
    );
    assert_eq!(updated_routing_url(None, &registry, Some(Ok(fetched))).as_deref(), Some("http://registry"));
    assert_eq!(updated_routing_url(None, &registry, None), None);
    assert_eq!(updated_routing_url(None, &SchemaSource::Sdl { sdl: "x".to_string() }, None), None);
}

fn lazily_resolved(subgraphs: Vec<(&str, SchemaSource)>) -> LazilyResolvedSupergraphConfig {
    let mut map = NameMap::new();
    for (name, schema) in subgraphs {
        map.insert(
            name.to_string(),
            LazilyResolvedSubgraph { name: name.to_string(), routing_url: None, schema },
        );
    }
    LazilyResolvedSupergraphConfig { origin_path: None, subgraphs: map, federation_version: None }
}

fn yaml(subgraphs: Vec<(&str, SchemaSource)>, federation_version: Option<FederationVersion>) -> SupergraphConfigYaml {
    let mut map = NameMap::new();
    for (name, schema) in subgraphs {
        map.insert(name.to_string(), SubgraphConfig { routing_url: None, schema });
    }
    SupergraphConfigYaml { subgraphs: map, federation_version }
}

#[test]
fn a_rewritten_supergraph_config_is_turned_into_subgraph_actions() {
    let sdl = |s: &str| SchemaSource::Sdl { sdl: s.to_string() };
    let mut watcher = SupergraphConfigWatcher::new(
        lazily_resolved(vec![("kept", sdl("type Query { a: Int }")), ("dropped", sdl("type Query { b: Int }"))]),
        "/work/supergraph.yaml".to_string(),
    );
    assert!(!watcher.broken);

    let rewritten = yaml(
        vec![
            ("kept", sdl("type Query { a: Int }")),
            ("added", sdl("type Query { c: Int }")),
            ("file", SchemaSource::File { file: "schema.graphql".to_string() }),
        ],
        Some(FederationVersion::ExactFedTwo(Version::release(2, 9, 0))),
    );
    let unresolved = watcher.unresolved_supergraph_config(rewritten);
    assert_eq!(unresolved.origin_path.as_deref(), Some("/work/supergraph.yaml"));

    let mut canonicalized = NameMap::new();
    canonicalized.insert("file".to_string(), Err("No such file or directory".to_string()));
    let diff = watcher.apply(unresolved, NameMap::new(), &"/work".to_string(), &canonicalized);

    // The schema file that is not there is left out of the config.
    assert_eq!(watcher.supergraph_config.subgraphs.len(), 2);
    assert!(!watcher.supergraph_config.subgraphs.contains_key(&"file".to_string()));
    assert_eq!(diff.added().len(), 1);
    assert_eq!(diff.added()[0].0, "added");
    assert_eq!(diff.removed().len(), 1);
    assert_eq!(diff.removed()[0].0, "dropped");
    assert!(diff.changed().is_empty());

    assert!(matches!(diff.federation_version(), Some(FederationVersion::ExactFedTwo(v)) if v.minor == 9));

    let actions = subgraph_actions(diff);
    assert_eq!(actions.len(), 2);
    assert!(matches!(&actions[0], SubgraphAction::Add { name, .. } if name == "added"));
    assert!(matches!(&actions[1], SubgraphAction::Remove { name, resolution_error: None } if name == "dropped"));
}

#[test]
fn a_new_federation_version_in_the_config_reaches_composition() {
    let sdl = || SchemaSource::Sdl { sdl: "type Query { a: Int }".to_string() };
    let before = yaml(vec![("kept", sdl())], None);
    let after = yaml(vec![("kept", sdl())], Some(FederationVersion::ExactFedTwo(Version::release(2, 9, 0))));
    let diff = SupergraphConfigDiff::new(before, after, NameMap::new(), false).unwrap();
    assert!(matches!(
        FederationWatcher.handle(Ok(diff)),
        Some(CompositionInputEvent::Federation(FederationVersion::ExactFedTwo(v))) if v.minor == 9
    ));
    let unchanged = SupergraphConfigDiff::new(yaml(vec![("kept", sdl())], None), yaml(vec![("kept", sdl())], None), NameMap::new(), false).unwrap();
    assert!(FederationWatcher.handle(Ok(unchanged)).is_none());
}

#[test]
fn a_supergraph_config_that_does_not_read_is_reported_and_recovers() {
    let sdl = SchemaSource::Sdl { sdl: "type Query { a: Int }".to_string() };
    let mut watcher = SupergraphConfigWatcher::new(lazily_resolved(vec![("kept", sdl)]), "supergraph.yaml".to_string());
    let error = watcher.parse_failed("did not find expected key".to_string());
    assert!(watcher.broken);
    assert_eq!(watcher.supergraph_config.subgraphs.len(), 1);
    let event = FederationWatcher.handle(Err(error));
    assert!(matches!(
        event,
        Some(CompositionInputEvent::Passthrough(CompositionEvent::Error(CompositionError::InvalidSupergraphConfig(m))))
            if m == "did not find expected key"
    ));

    // The same config read again after a failure recomposes, though nothing changed.
    let same = yaml(vec![("kept", SchemaSource::Sdl { sdl: "type Query { a: Int }".to_string() })], None);
    let unresolved = watcher.unresolved_supergraph_config(same);
    let diff = watcher.apply(unresolved, NameMap::new(), &".".to_string(), &NameMap::new());
    assert!(!watcher.broken);
    assert!(diff.previously_broken());
    let actions = subgraph_actions(diff);
    assert_eq!(actions.len(), 1);
    assert!(matches!(actions[0], SubgraphAction::Recompose));
}

const KEPT_URL: &str = "http://localhost:4000";

/// A lazily resolved config whose subgraphs are all routed to `KEPT_URL`.
fn routed_lazily(subgraphs: Vec<(&str, SchemaSource)>) -> LazilyResolvedSupergraphConfig {
    let mut config = lazily_resolved(subgraphs);
    for i in 0..config.subgraphs.len() {
        let name = config.subgraphs.key_at(i).clone();
        let s = config.subgraphs.get(&name).unwrap();
        let routed = LazilyResolvedSubgraph { name: s.name.clone(), routing_url: Some(KEPT_URL.to_string()), schema: s.schema.copy() };
        config.subgraphs.insert(name, routed);
    }
    config
}

/// A supergraph config whose subgraphs are all routed to `KEPT_URL`.
fn routed_yaml(subgraphs: Vec<(&str, SchemaSource)>, federation_version: Option<FederationVersion>) -> SupergraphConfigYaml {
    let mut map = NameMap::new();
    for (name, schema) in subgraphs {
        map.insert(name.to_string(), SubgraphConfig { routing_url: Some(KEPT_URL.to_string()), schema });
    }
    SupergraphConfigYaml { subgraphs: map, federation_version }
}

fn sdl_source(sdl: &str) -> SchemaSource {
    SchemaSource::Sdl { sdl: sdl.to_string() }
}

#[test]
fn the_subgraph_watchers_act_on_each_readable_change_in_turn() {
    let before = yaml(vec![("kept", sdl_source("type Query { a: Int }"))], None);
    let after = yaml(
        vec![("kept", sdl_source("type Query { a: Int }")), ("added", sdl_source("type Query { b: Int }"))],
        None,
    );
    let grown = SupergraphConfigDiff::new(before, after, NameMap::new(), false).unwrap();
    let same = || yaml(vec![("kept", sdl_source("type Query { a: Int }"))], None);
    let recovered = SupergraphConfigDiff::new(same(), same(), NameMap::new(), true).unwrap();
    let items = vec![
        Err(SupergraphConfigSerialisationError::DeserializingConfigError { source: "bad yaml".to_string() }),
        Ok(grown),
        Ok(recovered),
    ];
    let actions = subgraph_watcher_actions(items);
    assert_eq!(actions.len(), 2);
    assert!(matches!(&actions[0], SubgraphAction::Add { name, .. } if name == "added"));
    assert!(matches!(actions[1], SubgraphAction::Recompose));
    assert!(subgraph_watcher_actions(vec![]).is_empty());
}

#[test]
fn only_removals_and_recompositions_reach_composition_directly() {
    let removed = SubgraphAction::Remove { name: "gone".to_string(), resolution_error: None };
    assert!(matches!(
        removed.into_event(),
        Some(CompositionInputEvent::Subgraph(SubgraphEvent::SubgraphRemoved(SubgraphSchemaRemoved {
            name,
            resolution_error: None,
        }))) if name == "gone"
    ));
    assert!(matches!(SubgraphAction::Recompose.into_event(), Some(CompositionInputEvent::Recompose)));
    let added = SubgraphAction::Add {
        name: "new".to_string(),
        config: SubgraphConfig { routing_url: None, schema: sdl_source("type Query { a: Int }") },
    };
    assert!(added.into_event().is_none());
}

#[test]
fn removing_a_subgraph_cancels_only_a_running_watcher() {
    let mut handles = SubgraphHandles::new(vec!["products".to_string(), "users".to_string()]);
    let (cancel, event) = handles.remove(&"products".to_string(), None);
    assert!(cancel);
    assert!(matches!(
        event,
        CompositionInputEvent::Subgraph(SubgraphEvent::SubgraphRemoved(SubgraphSchemaRemoved { name, resolution_error: None }))
            if name == "products"
    ));
    let (again, _) = handles.remove(&"products".to_string(), None);
    assert!(!again);
    let (never, event) = handles.remove(
        &"reviews".to_string(),
        Some(ResolveSubgraphError::InvalidCliInput { input: "bad url".to_string() }),
    );
    assert!(!never);
    assert!(matches!(
        event,
        CompositionInputEvent::Subgraph(SubgraphEvent::SubgraphRemoved(SubgraphSchemaRemoved {
            name,
            resolution_error: Some(ResolveSubgraphError::InvalidCliInput { .. }),
        })) if name == "reviews"
    ));
    handles.watch("reviews".to_string());
    assert!(handles.remove(&"reviews".to_string(), None).0);
    assert!(handles.remove(&"users".to_string(), None).0);
}

#[test]
fn each_composition_run_reports_its_start_then_its_outcome() {
    let run = RunComposition { supergraph_binary: binary("/tmp/supergraph") };
    let success = CompositionSuccess {
        supergraph_sdl: SUPERGRAPH_SDL.to_string(),
        hints: vec![],
        federation_version: FederationVersion::ExactFedTwo(version_2_8_0()),
    };
    let events = run.handle(vec![Ok(success), Err(CompositionError::InvalidSupergraphConfig("invalid".to_string()))]);
    assert_eq!(events.len(), 4);
    assert!(matches!(events[0], CompositionEvent::Started));
    assert!(matches!(&events[1], CompositionEvent::Success(s) if s.supergraph_sdl == SUPERGRAPH_SDL));
    assert!(matches!(events[2], CompositionEvent::Started));
    assert!(matches!(&events[3], CompositionEvent::Error(CompositionError::InvalidSupergraphConfig(m)) if m == "invalid"));
}

fn kept_fetches() -> NameMap<SchemaFetch> {
    let mut fetches = NameMap::new();
    fetches.insert("kept".to_string(), SchemaFetch::Nothing);
    fetches
}

#[test]
fn the_config_watcher_reports_each_change_of_the_file() {
    let mut watcher = SupergraphConfigWatcher::new(
        routed_lazily(vec![("kept", sdl_source("type Query { a: Int }"))]),
        "/work/supergraph.yaml".to_string(),
    );
    assert!(watcher.initial_read(Ok(routed_yaml(vec![("kept", sdl_source("type Query { a: Int }"))], None))).is_none());
    assert!(!watcher.broken);

    let root = "/work".to_string();
    let failed = watcher.step(Err("did not find expected key".to_string()), &root, NameMap::new(), &NameMap::new());
    assert!(matches!(
        failed,
        Some(Err(SupergraphConfigSerialisationError::DeserializingConfigError { source })) if source == "did not find expected key"
    ));
    assert!(watcher.broken);

    let read = Ok(routed_yaml(vec![("kept", sdl_source("type Query { a: Int }"))], None));
    match watcher.step(read, &root, kept_fetches(), &NameMap::new()) {
        Some(Ok(diff)) => {
            assert!(diff.previously_broken());
            assert!(diff.is_empty());
        },
        other => panic!("unexpected {other:?}"),
    }
    assert!(!watcher.broken);
}

#[test]
fn a_fed_one_config_over_link_using_subgraphs_changes_nothing() {
    let linked = r#"extend schema @link(url: "https://specs.apollo.dev/federation/v2.3", import: ["@key"])
type Query { a: Int }"#;
    let mut watcher = SupergraphConfigWatcher::new(
        routed_lazily(vec![("kept", sdl_source("type Query { a: Int }"))]),
        "/work/supergraph.yaml".to_string(),
    );
    let read = Ok(routed_yaml(vec![("kept", sdl_source(linked))], Some(FederationVersion::LatestFedOne)));
    assert!(watcher.step(read, &"/work".to_string(), kept_fetches(), &NameMap::new()).is_none());
    assert!(!watcher.broken);
    let kept = watcher.supergraph_config.subgraphs.get(&"kept".to_string()).unwrap();
    assert!(matches!(&kept.schema, SchemaSource::Sdl { sdl } if sdl == "type Query { a: Int }"));
}

#[test]
fn the_config_watcher_runs_over_a_stream_of_changes() {
    let mut watcher = SupergraphConfigWatcher::new(
        routed_lazily(vec![("kept", sdl_source("type Query { a: Int }"))]),
        "/work/supergraph.yaml".to_string(),
    );
    let grown = routed_yaml(
        vec![("kept", sdl_source("type Query { a: Int }")), ("added", sdl_source("type Query { b: Int }"))],
        None,
    );
    let mut grown_fetches = kept_fetches();
    grown_fetches.insert("added".to_string(), SchemaFetch::Nothing);
    let changes = vec![
        ConfigChange { read: Err("tab in indentation".to_string()), fetches: NameMap::new(), canonicalized: NameMap::new() },
        ConfigChange { read: Ok(grown), fetches: grown_fetches, canonicalized: NameMap::new() },
    ];
    let (first, reports) = watcher.run(Err("unreadable".to_string()), &"/work".to_string(), changes);
    assert!(matches!(
        first,
        Some(SupergraphConfigSerialisationError::DeserializingConfigError { source }) if source == "unreadable"
    ));
    assert_eq!(reports.len(), 2);
    assert!(matches!(&reports[0], Some(Err(_))));
    match &reports[1] {
        Some(Ok(diff)) => {
            assert!(diff.previously_broken());
            assert_eq!(diff.added().len(), 1);
            assert_eq!(diff.added()[0].0, "added");
        },
        other => panic!("unexpected {other:?}"),
    }
    assert!(!watcher.broken);
    assert_eq!(watcher.supergraph_config.subgraphs.len(), 2);
}

fn resolved(name: &str, routing_url: Option<&str>, schema: SchemaSource) -> FullyResolvedSubgraph {
    FullyResolvedSubgraph::new(
        name.to_string(),
        "type Query { a: Int }".to_string(),
        routing_url.map(|u| u.to_string()),
        schema,
    )
}

fn introspected(url: &str) -> SchemaSource {
    SchemaSource::SubgraphIntrospection { subgraph_url: url.to_string(), introspection_headers: None }
}

#[test]
fn an_added_subgraph_reports_its_sdl_and_is_watched_where_it_changes() {
    let root = "/work".to_string();
    let mut handles = SubgraphHandles::new(vec![]);
    let config = SubgraphConfig { routing_url: None, schema: introspected("http://localhost:4001") };
    let fetched = resolved("inventory", Some("http://localhost:4001"), introspected("http://localhost:4001"));
    let events = handles.add(&root, "inventory".to_string(), config, None, Ok(()), Some(Ok(fetched))).unwrap();
    assert_eq!(events.len(), 1);
    assert!(matches!(
        &events[0],
        CompositionInputEvent::Subgraph(SubgraphEvent::SubgraphSchemaChanged(c)) if c.name == "inventory"
    ));
    assert!(handles.remove(&"inventory".to_string(), None).0);

    // SDL written in the config is fetched once, not watched.
    let config = SubgraphConfig { routing_url: Some("http://localhost:4002".to_string()), schema: sdl_source("type Query { a: Int }") };
    let fetched = resolved("inline", Some("http://localhost:4002"), sdl_source("type Query { a: Int }"));
    let events = handles.add(&root, "inline".to_string(), config, None, Ok(()), Some(Ok(fetched))).unwrap();
    assert_eq!(events.len(), 1);
    assert!(!handles.remove(&"inline".to_string(), None).0);

    // A first fetch that fails reports nothing and watches nothing.
    let config = SubgraphConfig { routing_url: None, schema: introspected("http://localhost:4003") };
    let failed = Err(ResolveSubgraphError::IntrospectionError { subgraph_name: "down".to_string(), source: "refused".to_string() });
    let events = handles.add(&root, "down".to_string(), config, None, Ok(()), Some(failed)).unwrap();
    assert!(events.is_empty());
    assert!(!handles.remove(&"down".to_string(), None).0);

    // A schema file that is not there is refused.
    let config = SubgraphConfig { routing_url: None, schema: SchemaSource::File { file: "missing.graphql".to_string() } };
    let refused = handles.add(&root, "file".to_string(), config, Some(Err("not found".to_string())), Ok(()), None);
    assert!(matches!(refused, Err(ResolveSubgraphError::FileNotFound { subgraph_name, .. }) if subgraph_name == "file"));
}

#[test]
fn an_updated_subgraph_reports_its_routing_url_last() {
    let root = "/work".to_string();
    let handles = SubgraphHandles::new(vec![]);
    let registry = SchemaSource::Subgraph { graphref: "graph@current".to_string(), subgraph: "products".to_string() };
    let config = SubgraphConfig { routing_url: None, schema: registry.copy() };
    let once = resolved("products", Some("http://registry/a"), registry.copy());
    let routing = resolved("products", Some("http://registry/b"), registry.copy());
    let events = handles
        .update(&root, "products".to_string(), config, None, Ok(()), Some(Ok(once)), Some(Ok(routing)))
        .unwrap();
    assert_eq!(events.len(), 2);
    assert!(matches!(
        &events[0],
        CompositionInputEvent::Subgraph(SubgraphEvent::SubgraphSchemaChanged(c)) if c.routing_url.as_deref() == Some("http://registry/a")
    ));
    assert!(matches!(
        &events[1],
        CompositionInputEvent::Subgraph(SubgraphEvent::RoutingUrlChanged(SubgraphRoutingUrlChanged { name, routing_url }))
            if name == "products" && routing_url.as_deref() == Some("http://registry/b")
    ));

    let config = SubgraphConfig { routing_url: None, schema: introspected("http://localhost:4001/graphql") };
    let events = handles.update(&root, "users".to_string(), config, None, Ok(()), None, None).unwrap();
    assert_eq!(events.len(), 1);
    assert!(matches!(
        &events[0],
        CompositionInputEvent::Subgraph(SubgraphEvent::RoutingUrlChanged(SubgraphRoutingUrlChanged { routing_url, .. }))
            if routing_url.as_deref() == Some("http://localhost:4001/graphql")
    ));

    let config = SubgraphConfig { routing_url: None, schema: registry.copy() };
    let refused = handles.update(
        &root,
        "products".to_string(),
        config,
        None,
        Err(ResolveSubgraphError::InvalidCliInput { input: "bad graph ref".to_string() }),
        None,
        None,
    );
    assert!(matches!(refused, Err(ResolveSubgraphError::InvalidCliInput { .. })));
}

#[test]
fn a_change_adding_sdl_without_a_routing_url_leaves_that_subgraph_out() {
    let mut watcher = SupergraphConfigWatcher::new(
        routed_lazily(vec![("kept", sdl_source("type Query { a: Int }"))]),
        "/work/supergraph.yaml".to_string(),
    );
    let mut read = routed_yaml(vec![("kept", sdl_source("type Query { a: Int }"))], None);
    read.subgraphs.insert(
        "bare".to_string(),
        SubgraphConfig { routing_url: None, schema: sdl_source("type Query { b: Int }") },
    );
    let mut fetches = kept_fetches();
    fetches.insert("bare".to_string(), SchemaFetch::Nothing);
    let report = watcher.step(Ok(read), &"/work".to_string(), fetches, &NameMap::new());
    assert!(matches!(report, Some(Ok(_))));
    assert!(!watcher.supergraph_config.subgraphs.contains_key(&"bare".to_string()));
    assert!(watcher.supergraph_config.subgraphs.contains_key(&"kept".to_string()));
}

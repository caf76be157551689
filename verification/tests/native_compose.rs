use apollo_composition::HybridComposition;
use apollo_federation_types::build_plugin as apollo;
use apollo_federation_types::composition::Issue;
use apollo_federation_types::javascript::SubgraphDefinition as JsSubgraphDefinition;
use rover_composition::composition::{
    BuildErrorType, BuildMessage, BuildMessageLevel, BuildMessageLocation, BuildMessagePoint, CompositionError,
    CompositionSuccess, PluginFailureReason, PluginResult,
};
use rover_composition::config::SchemaSource;
use rover_composition::name_map::NameMap;
use rover_composition::native::{
    into_composition_result, subgraph_definitions, NativeComposer, MAX_SUPPORTED_FEDERATION_SPEC_MAJOR,
    MAX_SUPPORTED_FEDERATION_SPEC_MINOR,
};
use rover_composition::subgraph::FullyResolvedSubgraph;
use rover_composition::supergraph::FullyResolvedSupergraphConfig;
use rover_composition::version::FederationVersion;

struct Composer;

impl HybridComposition for Composer {
    async fn compose_services_without_satisfiability(
        &mut self,
        _subgraph_definitions: Vec<JsSubgraphDefinition>,
    ) -> Option<apollo_composition::SupergraphSdl<'_>> {
        unreachable!("experimental_compose does not call into JavaScript")
    }

    async fn validate_satisfiability(&mut self) -> Result<Vec<Issue>, Vec<Issue>> {
        unreachable!("experimental_compose does not call into JavaScript")
    }

    fn update_supergraph_sdl(&mut self, _supergraph_sdl: String) {
        unreachable!("experimental_compose does not call into JavaScript")
    }

    fn add_issues<Source: Iterator<Item = Issue>>(&mut self, _issues: Source) {
        unreachable!("experimental_compose does not call into JavaScript")
    }
}

fn point(p: apollo::BuildMessagePoint) -> BuildMessagePoint {
    BuildMessagePoint { start: p.start, end: p.end, column: p.column, line: p.line }
}

fn message(m: apollo::BuildMessage) -> BuildMessage {
    BuildMessage {
        level: match m.level {
            apollo::BuildMessageLevel::Debug => BuildMessageLevel::Debug,
            apollo::BuildMessageLevel::Info => BuildMessageLevel::Info,
            apollo::BuildMessageLevel::Warn => BuildMessageLevel::Warn,
            _ => BuildMessageLevel::Error,
        },
        message: m.message,
        step: m.step,
        code: m.code,
        locations: m
            .locations
            .into_iter()
            .map(|l| BuildMessageLocation {
                subgraph: l.subgraph,
                source: l.source,
                start: l.start.map(point),
                end: l.end.map(point),
                other: l.other,
            })
            .collect(),
        schema_coordinate: m.schema_coordinate,
        other: m.other,
    }
}

fn plugin_result(r: apollo::PluginResult) -> PluginResult {
    PluginResult {
        result: r.result.map_err(|reason| match reason {
            apollo::PluginFailureReason::Build => PluginFailureReason::Build,
            apollo::PluginFailureReason::Config => PluginFailureReason::Config,
            _ => PluginFailureReason::InternalFailure,
        }),
        build_messages: r.build_messages.into_iter().map(message).collect(),
    }
}

/// Composes in process, as the application does.
fn compose(
    _composer: NativeComposer,
    config: &FullyResolvedSupergraphConfig,
) -> Result<CompositionSuccess, CompositionError> {
    let definitions = subgraph_definitions(config)
        .into_iter()
        .map(|d| JsSubgraphDefinition { name: d.name, url: d.url, sdl: d.sdl })
        .collect();
    let result = futures::executor::block_on(Composer.experimental_compose(definitions));
    let result = result
        .map(plugin_result)
        .map_err(|issues| issues.into_iter().map(apollo::BuildMessage::from).map(message).collect());
    into_composition_result(result, config.federation_version.copy())
}

fn subgraph(name: &str, sdl: &str) -> FullyResolvedSubgraph {
    FullyResolvedSubgraph::new(
        name.to_string(),
        sdl.to_string(),
        Some(format!("http://{name}.example.com")),
        SchemaSource::Sdl { sdl: sdl.to_string() },
    )
}

fn supergraph_config(subgraphs: Vec<(&str, &str)>, federation_version: FederationVersion) -> FullyResolvedSupergraphConfig {
    let mut map = NameMap::new();
    for (name, sdl) in subgraphs {
        map.insert(name.to_string(), subgraph(name, sdl));
    }
    FullyResolvedSupergraphConfig { origin_path: None, subgraphs: map, federation_version }
}

const FED_TWO_LINK: &str = r#"extend schema @link(url: "https://specs.apollo.dev/federation/v2.3", import: ["@key"])"#;

const CONNECT_PREAMBLE: &str = r#"extend schema
      @link(url: "https://specs.apollo.dev/federation/v2.10", import: ["@key"])
      @link(url: "https://specs.apollo.dev/connect/v0.1", import: ["@source", "@connect"])
      @source(name: "api", http: { baseURL: "http://127.0.0.1" })"#;

fn connectors_subgraph(source: &str, selection: &str) -> String {
    format!(
        "{CONNECT_PREAMBLE}\n\
         type Query {{ thing: Thing @connect(source: \"{source}\", \
         http: {{ GET: \"/thing\" }}, selection: \"{selection}\") }}\n\
         type Thing {{ id: ID! name: String }}"
    )
}

const CACHE_TAG_INVALID: &str = r#"extend schema
      @link(url: "https://specs.apollo.dev/federation/v2.12", import: ["@key", "@cacheTag"])
    type Product @key(fields: "upc") @cacheTag(format: "{ namedField }") {
      upc: String!
      name: String
    }
    type Query {
      topProducts(first: Int = 5): [Product] @cacheTag(format: "{$args}")
    }"#;

fn build_error_codes(error: CompositionError) -> Vec<String> {
    let CompositionError::Build { source, .. } = error else {
        panic!("expected CompositionError::Build, got {error:?}");
    };
    source.build_errors.iter().filter_map(|e| e.code.clone()).collect()
}

fn compose_all(subgraphs: Vec<(&str, &str)>) -> Result<CompositionSuccess, CompositionError> {
    let config = supergraph_config(subgraphs, FederationVersion::LatestFedTwo);
    let composer = NativeComposer::new(&config.federation_version).expect("LatestFedTwo is supported");
    compose(composer, &config)
}

fn composes_at_spec(major: u64, minor: u64) -> bool {
    let sdl = format!(
        r#"extend schema @link(url: "https://specs.apollo.dev/federation/v{major}.{minor}", import: ["@key"])
                type Query {{ thing: Thing }}
                type Thing @key(fields: "id") {{ id: ID! }}"#
    );
    let config = supergraph_config(vec![("one", &sdl)], FederationVersion::LatestFedTwo);
    let composer = NativeComposer::new(&FederationVersion::LatestFedTwo).expect("LatestFedTwo is accepted");
    compose(composer, &config).is_ok()
}

#[test]
fn max_supported_federation_spec_is_accurate() {
    let (major, minor) = (MAX_SUPPORTED_FEDERATION_SPEC_MAJOR, MAX_SUPPORTED_FEDERATION_SPEC_MINOR);
    assert!(composes_at_spec(major, minor), "expected federation spec v{major}.{minor} to be supported");
    assert!(
        !composes_at_spec(major, minor + 1),
        "federation spec v{major}.{} now composes; bump the newest supported spec",
        minor + 1
    );
}

#[test]
fn composes_two_subgraphs_natively() {
    let products = format!(
        "{FED_TWO_LINK}
                        type Query {{ products: [Product!]! }}
                        type Product @key(fields: \"id\") {{ id: ID! name: String! }}"
    );
    let reviews = format!(
        "{FED_TWO_LINK}
                        type Query {{ reviews: [Review!]! }}
                        type Review {{ id: ID! body: String! product: Product! }}
                        type Product @key(fields: \"id\") {{ id: ID! }}"
    );
    let config = supergraph_config(vec![("products", &products), ("reviews", &reviews)], FederationVersion::LatestFedTwo);
    let composer = NativeComposer::new(&config.federation_version).expect("LatestFedTwo is supported natively");
    let success = compose(composer, &config).expect("two valid subgraphs should compose");

    assert!(success.supergraph_sdl.contains("PRODUCTS"));
    assert!(success.supergraph_sdl.contains("REVIEWS"));
    assert!(success.supergraph_sdl.contains("join__Graph"));
    assert!(success.supergraph_sdl.contains("body"));
    assert!(matches!(success.federation_version, FederationVersion::LatestFedTwo));
}

#[test]
fn expands_connectors_into_the_supergraph() {
    let subgraph = connectors_subgraph("api", "id name");
    let success = compose_all(vec![("api", &subgraph)]).expect("a valid connectors subgraph should compose");
    assert!(success.supergraph_sdl.contains("specs.apollo.dev/connect"));
    assert!(success.supergraph_sdl.contains(r#"@join__directive(name: "source""#));
}

#[test]
fn surfaces_validation_errors_as_build_errors() {
    for (sdl, expected_code) in [
        (connectors_subgraph("api", "id {"), "INVALID_SELECTION"),
        (connectors_subgraph("nope", "id"), "SOURCE_NAME_MISMATCH"),
        (CACHE_TAG_INVALID.to_string(), "CACHE_TAG_INVALID_FORMAT"),
    ] {
        let error = compose_all(vec![("api", &sdl)]).expect_err("this subgraph should fail validation");
        let codes = build_error_codes(error);
        assert!(codes.contains(&expected_code.to_string()), "{codes:?} lacks {expected_code}");
    }
}

#[test]
fn reports_info_level_hints() {
    let overridden_a =
        format!("{FED_TWO_LINK}\ntype Query {{ t: T }}\ntype T @key(fields: \"id\") {{ id: ID! f: String }}");
    let cases = [
        (
            overridden_a.as_str(),
            r#"extend schema @link(url: "https://specs.apollo.dev/federation/v2.3", import: ["@key", "@override"])
           type T @key(fields: "id") { id: ID! f: String @override(from: "a") }"#,
            "OVERRIDDEN_FIELD_CAN_BE_REMOVED",
        ),
        (
            r#"extend schema @link(url: "https://specs.apollo.dev/federation/v2.3", import: ["@key", "@shareable"])
           type Query { v: V }
           type V { x: String @shareable }"#,
            r#"extend schema @link(url: "https://specs.apollo.dev/federation/v2.3", import: ["@key", "@shareable"])
           type V { x: String! @shareable }"#,
            "INCONSISTENT_BUT_COMPATIBLE_FIELD_TYPE",
        ),
    ];
    for (a, b, expected_code) in cases {
        let success = compose_all(vec![("a", a), ("b", b)]).expect("hints alone should not fail composition");
        let codes: Vec<_> = success.hints.iter().filter_map(|h| h.code.clone()).collect();
        assert!(codes.contains(&expected_code.to_string()), "{codes:?} lacks {expected_code}");
    }
}

#[test]
fn reports_composition_errors_as_build_errors() {
    let one = format!(
        "{FED_TWO_LINK}
                        type Query {{ thing: Thing }}
                        type Thing @key(fields: \"id\") {{ id: ID! shared: Int! }}"
    );
    let two = format!(
        "{FED_TWO_LINK}
                        type Query {{ other: Thing }}
                        type Thing @key(fields: \"id\") {{ id: ID! shared: String! }}"
    );
    let config = supergraph_config(vec![("one", &one), ("two", &two)], FederationVersion::LatestFedTwo);
    let composer = NativeComposer::new(&config.federation_version).expect("LatestFedTwo is supported natively");
    let error = compose(composer, &config).expect_err("mismatched field types should fail composition");
    let CompositionError::Build { source, .. } = error else {
        panic!("expected CompositionError::Build, got {error:?}");
    };
    assert!(!source.build_errors.is_empty());
    assert!(source.build_errors.iter().all(|e| matches!(e.error_type, BuildErrorType::Composition)));
}

use rover_composition::config::{SchemaSource, SubgraphConfig};
use rover_composition::name_map::NameMap;
use rover_composition::remote::RemoteSubgraph;
use rover_composition::resolution::{RemoteFetchFailure, SchemaFetch};
use rover_composition::subgraph::{
    path_to_canonicalize, FullyResolvedSubgraph, LazilyResolvedSubgraph, ResolveSubgraphError, UnresolvedSubgraph,
};

const SUBGRAPH_NAME: &str = "subgraph_0f1c2d3e4a5b6c7d8e9f";
const SDL: &str = "type Query { test_5d2e8a1b3c4f: String! }";
const ROUTING_URL: &str = "http://example.com/7b1e9c3d2a4f";
const LINK: &str =
    "extend schema @link(url: \"https://specs.apollo.dev/federation/v2.3\", import: [\"@key\", \"@shareable\"])";

fn sdl_fed2() -> String {
    format!("{LINK}\n{SDL}")
}

fn unresolved(schema: SchemaSource, routing_url: Option<&str>) -> UnresolvedSubgraph {
    UnresolvedSubgraph::new(
        SUBGRAPH_NAME.to_string(),
        SubgraphConfig { schema, routing_url: routing_url.map(|u| u.to_string()) },
    )
}

fn assert_resolved(
    result: Result<FullyResolvedSubgraph, ResolveSubgraphError>,
    routing_url: Option<&str>,
    sdl: &str,
    is_fed_two: bool,
) {
    let subgraph = result.expect("the subgraph resolves");
    assert_eq!(subgraph.name, SUBGRAPH_NAME);
    assert_eq!(subgraph.routing_url.as_deref(), routing_url);
    assert_eq!(subgraph.schema, sdl);
    assert_eq!(subgraph.is_fed_two, is_fed_two);
}

#[test]
fn subgraph_test_fully_resolve_sdl_subgraph_success() {
    for sdl in [SDL.to_string(), sdl_fed2()] {
        let result = FullyResolvedSubgraph::resolve(
            Some(&"/tmp/supergraph-root".to_string()),
            unresolved(SchemaSource::Sdl { sdl: sdl.clone() }, Some(ROUTING_URL)),
            SchemaFetch::Nothing,
        );
        assert_resolved(result, Some(ROUTING_URL), &sdl, sdl.contains("@link"));
    }
}

#[test]
fn subgraph_test_fully_resolve_remote_subgraph_success() {
    let graph_ref = "aGraph-01@aVariant_2";
    for sdl in [SDL.to_string(), sdl_fed2()] {
        let schema = SchemaSource::Subgraph { graphref: graph_ref.to_string(), subgraph: SUBGRAPH_NAME.to_string() };
        let fetched = SchemaFetch::Remote(Ok(RemoteSubgraph {
            name: SUBGRAPH_NAME.to_string(),
            routing_url: ROUTING_URL.to_string(),
            schema: sdl.clone(),
        }));
        let result = FullyResolvedSubgraph::resolve(
            Some(&"/tmp/supergraph-root".to_string()),
            unresolved(schema, Some(ROUTING_URL)),
            fetched,
        );
        assert_resolved(result, Some(ROUTING_URL), &sdl, sdl.contains("@link"));
    }
}

#[test]
fn subgraph_test_fully_resolve_introspection_subgraph_success() {
    let mut headers = NameMap::new();
    headers.insert("x-api-key".to_string(), "abc".to_string());
    for sdl in [SDL.to_string(), sdl_fed2()] {
        let schema = SchemaSource::SubgraphIntrospection {
            subgraph_url: ROUTING_URL.to_string(),
            introspection_headers: Some(rover_composition::config::copy_string_map(&headers)),
        };
        let result = FullyResolvedSubgraph::resolve(
            Some(&"/tmp/supergraph-root".to_string()),
            unresolved(schema, Some(ROUTING_URL)),
            SchemaFetch::Introspected(Ok(sdl.clone())),
        );
        assert_resolved(result, Some(ROUTING_URL), &sdl, sdl.contains("@link"));
    }
}

#[test]
fn subgraph_test_fully_resolve_file_subgraph_success() {
    for sdl in [SDL.to_string(), sdl_fed2()] {
        let schema = SchemaSource::File { file: "schema.graphql".to_string() };
        let fetched = SchemaFetch::File {
            canonicalized: Ok("/tmp/supergraph-root/schema.graphql".to_string()),
            read: Ok(sdl.clone()),
        };
        let result = FullyResolvedSubgraph::resolve(
            Some(&"/tmp/supergraph-root".to_string()),
            unresolved(schema, Some(ROUTING_URL)),
            fetched,
        );
        assert_resolved(result, Some(ROUTING_URL), &sdl, sdl.contains("@link"));
    }
}

#[test]
fn an_introspected_subgraph_without_a_routing_url_is_routed_to_its_url() {
    let schema = SchemaSource::SubgraphIntrospection { subgraph_url: ROUTING_URL.to_string(), introspection_headers: None };
    let result = FullyResolvedSubgraph::resolve(None, unresolved(schema, None), SchemaFetch::Introspected(Ok(SDL.to_string())));
    assert_resolved(result, Some(ROUTING_URL), SDL, false);
}

#[test]
fn a_registry_subgraph_without_a_routing_url_takes_the_registrys() {
    let schema = SchemaSource::Subgraph { graphref: "g@v".to_string(), subgraph: SUBGRAPH_NAME.to_string() };
    let fetched = SchemaFetch::Remote(Ok(RemoteSubgraph {
        name: SUBGRAPH_NAME.to_string(),
        routing_url: "http://registry.example.com".to_string(),
        schema: SDL.to_string(),
    }));
    let result = FullyResolvedSubgraph::resolve(None, unresolved(schema, None), fetched);
    assert_resolved(result, Some("http://registry.example.com"), SDL, false);
}

#[test]
fn outside_failures_become_resolution_errors() {
    let schema = || SchemaSource::Subgraph { graphref: "not a ref".to_string(), subgraph: "products".to_string() };
    let invalid = FullyResolvedSubgraph::resolve(
        None,
        unresolved(schema(), None),
        SchemaFetch::Remote(Err(RemoteFetchFailure::InvalidGraphRef("bad".to_string()))),
    );
    assert!(matches!(invalid, Err(ResolveSubgraphError::InvalidGraphRef { graph_ref, source }) if graph_ref == "not a ref" && source == "bad"));
    let fetch = FullyResolvedSubgraph::resolve(
        None,
        unresolved(schema(), None),
        SchemaFetch::Remote(Err(RemoteFetchFailure::Fetch("offline".to_string()))),
    );
    assert!(matches!(fetch, Err(ResolveSubgraphError::FetchRemoteSdlError { subgraph_name, source }) if subgraph_name == "products" && source == "offline"));

    let introspection = FullyResolvedSubgraph::resolve(
        None,
        unresolved(SchemaSource::SubgraphIntrospection { subgraph_url: ROUTING_URL.to_string(), introspection_headers: None }, None),
        SchemaFetch::Introspected(Err("connection refused".to_string())),
    );
    assert!(matches!(introspection, Err(ResolveSubgraphError::IntrospectionError { subgraph_name, source }) if subgraph_name == SUBGRAPH_NAME && source == "connection refused"));

    let unreadable = FullyResolvedSubgraph::resolve(
        Some(&"/root".to_string()),
        unresolved(SchemaSource::File { file: "a.graphql".to_string() }, None),
        SchemaFetch::File { canonicalized: Ok("/root/a.graphql".to_string()), read: Err("permission denied".to_string()) },
    );
    assert!(matches!(unreadable, Err(ResolveSubgraphError::Fs { source }) if source == "permission denied"));
}

#[test]
fn a_schema_file_needs_a_supergraph_config_and_an_existing_path() {
    let file = || SchemaSource::File { file: "a.graphql".to_string() };
    let fetched = || SchemaFetch::File { canonicalized: Err("No such file".to_string()), read: Err("unread".to_string()) };
    assert!(matches!(
        FullyResolvedSubgraph::resolve(None, unresolved(file(), None), fetched()),
        Err(ResolveSubgraphError::SupergraphConfigMissing)
    ));
    let missing = FullyResolvedSubgraph::resolve(Some(&"/root".to_string()), unresolved(file(), None), fetched());
    let Err(ResolveSubgraphError::FileNotFound { subgraph_name, supergraph_config_path, path, joined_path, source }) =
        missing
    else {
        panic!("expected FileNotFound, got {missing:?}");
    };
    assert_eq!(subgraph_name, SUBGRAPH_NAME);
    assert_eq!(supergraph_config_path, "/root");
    assert_eq!(path, "a.graphql");
    // The joined path is the root and the file, joined as camino joins paths.
    assert_eq!(joined_path, "/root/a.graphql");
    assert_eq!(source, "No such file");
}

#[test]
fn lazily_resolved_subgraphs_resolve_fully() {
    let lazy = LazilyResolvedSubgraph {
        name: SUBGRAPH_NAME.to_string(),
        routing_url: None,
        schema: SchemaSource::File { file: "/root/a.graphql".to_string() },
    };
    let result = FullyResolvedSubgraph::fully_resolve(
        lazy,
        SchemaFetch::File { canonicalized: Ok("/root/a.graphql".to_string()), read: Ok(sdl_fed2()) },
    );
    assert_resolved(result, None, &sdl_fed2(), true);

}

#[test]
fn only_schema_files_are_canonicalized() {
    let file = SubgraphConfig { routing_url: None, schema: SchemaSource::File { file: "schemas/a.graphql".to_string() } };
    assert_eq!(path_to_canonicalize(&"/work".to_string(), &file).as_deref(), Some("/work/schemas/a.graphql"));
    let sdl = SubgraphConfig { routing_url: None, schema: SchemaSource::Sdl { sdl: SDL.to_string() } };
    assert_eq!(path_to_canonicalize(&"/work".to_string(), &sdl), None);
}

#[test]
fn sdl_without_a_routing_url_is_refused() {
    let result = FullyResolvedSubgraph::resolve(
        Some(&"/tmp/supergraph-root".to_string()),
        unresolved(SchemaSource::Sdl { sdl: SDL.to_string() }, None),
        SchemaFetch::Nothing,
    );
    assert!(matches!(result, Err(ResolveSubgraphError::MissingRoutingUrl { subgraph }) if subgraph == SUBGRAPH_NAME));
    let lazy = LazilyResolvedSubgraph {
        name: SUBGRAPH_NAME.to_string(),
        routing_url: None,
        schema: SchemaSource::Sdl { sdl: SDL.to_string() },
    };
    assert!(matches!(
        FullyResolvedSubgraph::fully_resolve(lazy, SchemaFetch::Nothing),
        Err(ResolveSubgraphError::MissingRoutingUrl { .. })
    ));
}

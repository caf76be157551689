use rover_composition::config::{SchemaSource, SubgraphConfig, SupergraphConfigYaml};
use rover_composition::name_map::NameMap;
use rover_composition::resolver::{
    get_supergraph_config, DefaultSubgraphDefinition, FileDescriptorType, LoadSupergraphConfigError, Prompt,
    SupergraphConfigResolver,
};
use rover_composition::remote::RemoteSubgraph;
use rover_composition::resolution::SchemaFetch;
use rover_composition::subgraph::ResolveSubgraphError;
use rover_composition::supergraph::ResolveSupergraphConfigError;
use rover_composition::version::{FederationVersion, Version};

struct FixedPrompt;

impl Prompt for FixedPrompt {
    fn prompt_for_subgraph_name(&self) -> Result<String, ResolveSubgraphError> {
        Ok("prompted".to_string())
    }
    fn prompt_for_subgraph_url(&self) -> Result<String, ResolveSubgraphError> {
        Ok("http://localhost:4002/".to_string())
    }
}

struct NoPrompt;

impl Prompt for NoPrompt {
    fn prompt_for_subgraph_name(&self) -> Result<String, ResolveSubgraphError> {
        Err(ResolveSubgraphError::InvalidCliInput { input: "no terminal".to_string() })
    }
    fn prompt_for_subgraph_url(&self) -> Result<String, ResolveSubgraphError> {
        Err(ResolveSubgraphError::InvalidCliInput { input: "no terminal".to_string() })
    }
}

fn subgraph(url: Option<&str>, schema: SchemaSource) -> SubgraphConfig {
    SubgraphConfig { routing_url: url.map(|u| u.to_string()), schema }
}

fn map(entries: Vec<(&str, SubgraphConfig)>) -> NameMap<SubgraphConfig> {
    let mut m = NameMap::new();
    for (k, v) in entries {
        m.insert(k.to_string(), v);
    }
    m
}

#[test]
fn a_local_subgraph_keeps_the_remote_routing_url_when_it_gives_none() {
    let remote = map(vec![
        ("products", subgraph(Some("https://products.remote"), SchemaSource::Subgraph {
            graphref: "graph@current".to_string(),
            subgraph: "products".to_string(),
        })),
        ("reviews", subgraph(Some("https://reviews.remote"), SchemaSource::Subgraph {
            graphref: "graph@current".to_string(),
            subgraph: "reviews".to_string(),
        })),
    ]);
    let local = SupergraphConfigYaml {
        subgraphs: map(vec![
            ("products", subgraph(None, SchemaSource::File { file: "products.graphql".to_string() })),
            ("reviews", subgraph(Some("http://localhost:4002"), SchemaSource::Sdl { sdl: "type Query { r: Int }".to_string() })),
            ("users", subgraph(None, SchemaSource::Sdl { sdl: "type Query { u: Int }".to_string() })),
        ]),
        federation_version: Some(FederationVersion::ExactFedTwo(Version::release(2, 5, 0))),
    };
    let resolver = SupergraphConfigResolver::default()
        .load_remote_subgraphs(Some(Ok(remote)))
        .unwrap()
        .load_from_file_descriptor(Some((FileDescriptorType::File("/work/supergraph.yaml".to_string()), Ok(Ok(local)))))
        .unwrap()
        .skip_default_subgraph();
    let subgraphs = &resolver.state.subgraphs;
    assert_eq!(subgraphs.len(), 3);
    let products = subgraphs.get(&"products".to_string()).unwrap();
    assert_eq!(products.routing_url.as_deref(), Some("https://products.remote"));
    assert!(matches!(&products.schema, SchemaSource::File { file } if file == "products.graphql"));
    let reviews = subgraphs.get(&"reviews".to_string()).unwrap();
    assert_eq!(reviews.routing_url.as_deref(), Some("http://localhost:4002"));
    let users = subgraphs.get(&"users".to_string()).unwrap();
    assert_eq!(users.routing_url, None);
    assert_eq!(resolver.state.origin_path.as_deref(), Some("/work/supergraph.yaml"));
    assert!(matches!(
        resolver.state.federation_version_resolver.federation_version,
        Some(FederationVersion::ExactFedTwo(_))
    ));
}

#[test]
fn the_users_federation_version_comes_before_the_configs() {
    let local = SupergraphConfigYaml { subgraphs: NameMap::new(), federation_version: Some(FederationVersion::LatestFedOne) };
    let resolver = SupergraphConfigResolver::new(FederationVersion::LatestFedTwo)
        .load_remote_subgraphs(None)
        .unwrap()
        .load_from_file_descriptor(Some((FileDescriptorType::Stdin, Ok(Ok(local)))))
        .unwrap();
    assert!(matches!(resolver.state.federation_version_resolver.federation_version, Some(FederationVersion::LatestFedTwo)));
    assert!(resolver.state.origin_path.is_none());
}

#[test]
fn a_config_that_does_not_parse_gives_way_to_an_empty_one() {
    let config = get_supergraph_config(Ok(Err("missing field `subgraphs`".to_string()))).unwrap();
    assert!(config.subgraphs.is_empty());
    assert!(config.federation_version.is_none());
    assert!(matches!(
        get_supergraph_config(Err(LoadSupergraphConfigError::ExpansionError("env".to_string()))),
        Err(LoadSupergraphConfigError::ExpansionError(_))
    ));
}

#[test]
fn a_default_subgraph_is_defined_only_where_there_is_none() {
    let empty = SupergraphConfigResolver::default()
        .load_remote_subgraphs(None)
        .unwrap()
        .load_from_file_descriptor(None)
        .unwrap()
        .define_default_subgraph_if_empty(DefaultSubgraphDefinition::Prompt(FixedPrompt))
        .unwrap();
    let prompted = empty.state.subgraphs.get(&"prompted".to_string()).unwrap();
    assert_eq!(prompted.routing_url.as_deref(), Some("http://localhost:4002/"));

    let with_file = SupergraphConfigResolver::default()
        .load_remote_subgraphs(None)
        .unwrap()
        .load_from_file_descriptor(None)
        .unwrap()
        .define_default_subgraph_if_empty(DefaultSubgraphDefinition::<FixedPrompt>::Args {
            name: "args".to_string(),
            url: "http://localhost:4003/".to_string(),
            schema_path: Some("schema.graphql".to_string()),
        })
        .unwrap();
    let args = with_file.state.subgraphs.get(&"args".to_string()).unwrap();
    assert!(matches!(&args.schema, SchemaSource::File { file } if file == "schema.graphql"));

    let existing = SupergraphConfigResolver::default()
        .load_remote_subgraphs(Some(Ok(map(vec![("remote", subgraph(Some("https://r"), SchemaSource::Sdl { sdl: "s".to_string() }))]))))
        .unwrap()
        .load_from_file_descriptor(None)
        .unwrap()
        .define_default_subgraph_if_empty(DefaultSubgraphDefinition::Prompt(FixedPrompt))
        .unwrap();
    assert_eq!(existing.state.subgraphs.len(), 1);
    assert!(existing.state.subgraphs.contains_key(&"remote".to_string()));
}

#[test]
fn test_fully_resolve_subgraphs() {
    let local = SupergraphConfigYaml {
        subgraphs: map(vec![
            ("sdl_subgraph", subgraph(Some("http://a"), SchemaSource::Sdl { sdl: "type Query { a: Int }".to_string() })),
            ("remote_subgraph", subgraph(Some("http://r"), SchemaSource::Subgraph {
                graphref: "graph@current".to_string(),
                subgraph: "remote".to_string(),
            })),
            ("introspect_subgraph", subgraph(None, SchemaSource::SubgraphIntrospection {
                subgraph_url: "http://localhost:4001/graphql".to_string(),
                introspection_headers: None,
            })),
            ("file_subgraph", subgraph(Some("http://f"), SchemaSource::File { file: "f.graphql".to_string() })),
        ]),
        federation_version: None,
    };
    let resolver = SupergraphConfigResolver::default()
        .load_remote_subgraphs(None)
        .unwrap()
        .load_from_file_descriptor(Some((FileDescriptorType::File("/work/supergraph.yaml".to_string()), Ok(Ok(local)))))
        .unwrap()
        .skip_default_subgraph();
    let mut fetches = NameMap::new();
    fetches.insert("sdl_subgraph".to_string(), SchemaFetch::Nothing);
    fetches.insert(
        "remote_subgraph".to_string(),
        SchemaFetch::Remote(Ok(RemoteSubgraph {
            name: "remote".to_string(),
            routing_url: "http://registry".to_string(),
            schema: "type Query { r: Int }".to_string(),
        })),
    );
    fetches.insert("introspect_subgraph".to_string(), SchemaFetch::Introspected(Ok("type Query { i: Int }".to_string())));
    fetches.insert(
        "file_subgraph".to_string(),
        SchemaFetch::File { canonicalized: Ok("/work/f.graphql".to_string()), read: Ok("type Query { f: Int }".to_string()) },
    );
    let (config, errors) = resolver.fully_resolve_subgraphs(&"/work".to_string(), fetches).unwrap();
    assert!(errors.is_empty());
    assert_eq!(config.subgraphs.key_list(), vec!["file_subgraph", "introspect_subgraph", "remote_subgraph", "sdl_subgraph"]);
    let get = |name: &str| config.subgraphs.get(&name.to_string()).unwrap();
    assert_eq!(get("sdl_subgraph").schema, "type Query { a: Int }");
    assert_eq!(get("remote_subgraph").schema, "type Query { r: Int }");
    assert_eq!(get("remote_subgraph").routing_url.as_deref(), Some("http://r"));
    assert_eq!(get("introspect_subgraph").routing_url.as_deref(), Some("http://localhost:4001/graphql"));
    assert_eq!(get("file_subgraph").schema, "type Query { f: Int }");
    assert!(config.origin_path.is_none());
    assert!(matches!(config.federation_version, FederationVersion::LatestFedTwo));
}

#[test]
fn a_subgraph_that_does_not_resolve_is_set_aside_with_its_error() {
    let local = SupergraphConfigYaml {
        subgraphs: map(vec![
            ("sdl_subgraph", subgraph(Some("http://a"), SchemaSource::Sdl { sdl: "type Query { a: Int }".to_string() })),
            ("file_subgraph", subgraph(None, SchemaSource::File { file: "gone.graphql".to_string() })),
        ]),
        federation_version: None,
    };
    let resolver = SupergraphConfigResolver::default()
        .load_remote_subgraphs(None)
        .unwrap()
        .load_from_file_descriptor(Some((FileDescriptorType::File("/work/supergraph.yaml".to_string()), Ok(Ok(local)))))
        .unwrap()
        .skip_default_subgraph();
    let mut fetches = NameMap::new();
    fetches.insert("sdl_subgraph".to_string(), SchemaFetch::Nothing);
    fetches.insert(
        "file_subgraph".to_string(),
        SchemaFetch::File { canonicalized: Err("No such file or directory".to_string()), read: Err("unread".to_string()) },
    );
    let (config, errors) = resolver.fully_resolve_subgraphs(&"/work".to_string(), fetches).unwrap();
    assert_eq!(config.subgraphs.key_list(), vec!["sdl_subgraph"]);
    assert_eq!(errors.key_list(), vec!["file_subgraph"]);
    assert!(matches!(
        errors.get(&"file_subgraph".to_string()),
        Some(ResolveSubgraphError::FileNotFound { joined_path, .. }) if joined_path == "/work/gone.graphql"
    ));
}

#[test]
fn a_fed_one_choice_with_link_using_subgraphs_is_a_mismatch() {
    let sdl = r#"extend schema @link(url: "https://specs.apollo.dev/federation/v2.3")
type Query { a: Int }"#;
    let resolver = SupergraphConfigResolver::new(FederationVersion::LatestFedOne)
        .load_remote_subgraphs(Some(Ok(map(vec![("linked", subgraph(Some("http://localhost:4000"), SchemaSource::Sdl { sdl: sdl.to_string() }))]))))
        .unwrap()
        .load_from_file_descriptor(None)
        .unwrap()
        .skip_default_subgraph();
    let mut fetches = NameMap::new();
    fetches.insert("linked".to_string(), SchemaFetch::Nothing);
    match resolver.fully_resolve_subgraphs(&"/work".to_string(), fetches) {
        Err(ResolveSupergraphConfigError::FederationVersionMismatch(m)) => {
            assert_eq!(m.subgraph_names, vec!["linked".to_string()]);
            assert_eq!(
                m.message(),
                "The 'federation_version' specified (0) is invalid. The following subgraphs contain '@link' directives, which are only valid in Federation 2: linked"
            );
        },
        other => panic!("unexpected {other:?}"),
    }
}

#[test]
fn lazily_resolve_subgraphs() {
    let local = SupergraphConfigYaml {
        subgraphs: map(vec![
            ("file_subgraph", subgraph(Some("http://f"), SchemaSource::File { file: "f.graphql".to_string() })),
            ("missing_file", subgraph(None, SchemaSource::File { file: "nope.graphql".to_string() })),
            ("sdl_subgraph", subgraph(None, SchemaSource::Sdl { sdl: "type Query { s: Int }".to_string() })),
        ]),
        federation_version: None,
    };
    let resolver = SupergraphConfigResolver::default()
        .load_remote_subgraphs(None)
        .unwrap()
        .load_from_file_descriptor(Some((FileDescriptorType::File("/work/supergraph.yaml".to_string()), Ok(Ok(local)))))
        .unwrap()
        .skip_default_subgraph();
    let mut canonicalized = NameMap::new();
    canonicalized.insert("file_subgraph".to_string(), Ok("/work/f.graphql".to_string()));
    canonicalized.insert("missing_file".to_string(), Err("No such file or directory".to_string()));
    let (config, errors) = resolver.lazily_resolve_subgraphs(&"/work".to_string(), &canonicalized);
    assert_eq!(config.origin_path.as_deref(), Some("/work/supergraph.yaml"));
    let file = config.subgraphs.get(&"file_subgraph".to_string()).unwrap();
    assert!(matches!(&file.schema, SchemaSource::File { file } if file == "/work/f.graphql"));
    assert_eq!(file.routing_url.as_deref(), Some("http://f"));
    assert!(config.subgraphs.contains_key(&"sdl_subgraph".to_string()));
    match errors.get(&"missing_file".to_string()) {
        Some(ResolveSubgraphError::FileNotFound { subgraph_name, path, joined_path, .. }) => {
            assert_eq!(subgraph_name, "missing_file");
            assert_eq!(path, "nope.graphql");
            assert_eq!(joined_path, "/work/nope.graphql");
        },
        other => panic!("unexpected {other:?}"),
    }
}

#[test]
fn a_default_subgraph_comes_from_the_answers_given_for_it() {
    let fresh = || {
        SupergraphConfigResolver::default()
            .load_remote_subgraphs(None)
            .unwrap()
            .load_from_file_descriptor(None)
            .unwrap()
    };
    let defined = fresh()
        .define_default_subgraph(Ok(("http://localhost:4005/".to_string(), "answered".to_string())), None)
        .unwrap();
    assert_eq!(defined.state.subgraphs.len(), 1);
    let answered = defined.state.subgraphs.get(&"answered".to_string()).unwrap();
    assert_eq!(answered.routing_url.as_deref(), Some("http://localhost:4005/"));
    assert!(matches!(
        &answered.schema,
        SchemaSource::SubgraphIntrospection { subgraph_url, introspection_headers: None } if subgraph_url == "http://localhost:4005/"
    ));
    let refused = fresh().define_default_subgraph(
        Err(ResolveSubgraphError::InvalidCliInput { input: "no terminal".to_string() }),
        None,
    );
    assert!(matches!(refused, Err(ResolveSubgraphError::InvalidCliInput { input }) if input == "no terminal"));
    let failing = fresh().define_default_subgraph_if_empty(DefaultSubgraphDefinition::Prompt(NoPrompt));
    assert!(matches!(failing, Err(ResolveSubgraphError::InvalidCliInput { .. })));
}

use apollo_federation_types::config::SupergraphConfig;
use rover_composition::expansion::expand_text;
use rover_composition::name_map::NameMap;

fn env(vars: Vec<(&str, &str)>) -> NameMap<String> {
    let mut m = NameMap::new();
    for (k, v) in vars {
        m.insert(k.to_string(), v.to_string());
    }
    m
}

fn routing_url_of(yaml: &str, subgraph: &str) -> Option<String> {
    let config = SupergraphConfig::new_from_yaml(yaml).unwrap();
    config.into_iter().find(|(name, _)| name == subgraph).unwrap().1.routing_url
}

#[test]
fn test_expansion_works_inside_supergraph_yaml() {
    let supergraph_config = r#"federation_version: =2.9.3
subgraphs:
  products:
    routing_url: http://${env.MY_ENV_VAR:-host.docker.internal}:5000/graphql
    schema:
      subgraph_url: http://localhost:4001
  users:
    routing_url: http://localhost:4002
    schema:
      subgraph_url: http://localhost:4002"#;
    for (vars, expected) in [
        (vec![("MY_ENV_VAR", "foo.bar.com")], "http://foo.bar.com:5000/graphql"),
        (vec![], "http://host.docker.internal:5000/graphql"),
    ] {
        let expanded = expand_text(supergraph_config, &env(vars)).unwrap();
        assert_eq!(routing_url_of(&expanded, "products").as_deref(), Some(expected));
        assert_eq!(routing_url_of(&expanded, "users").as_deref(), Some("http://localhost:4002"));
    }
}

#[test]
fn test_environment_variable_expansion() {
    let yaml_config = r#"
            subgraphs:
              test_subgraph:
                routing_url: "http://localhost:${env.TEST_SUBGRAPH_PORT}/graphql"
                schema:
                  sdl: |
                    type Query {
                      hello: String
                    }
            "#;
    let expanded = expand_text(yaml_config, &env(vec![("TEST_SUBGRAPH_PORT", "4000")])).unwrap();
    assert_eq!(
        routing_url_of(&expanded, "test_subgraph"),
        Some(String::from("http://localhost:4000/graphql"))
    );
}

#[test]
fn test_environment_variable_expansion_not_defined() {
    let yaml_config = r#"
            subgraphs:
              test_subgraph:
                routing_url: "http://localhost:${env.NOT_DEFINED}/graphql"
                schema:
                  sdl: |
                    type Query {
                      hello: String
                    }
            "#;
    match expand_text(yaml_config, &env(vec![])) {
        Err(message) => assert!(message.contains("environment variable not found")),
        _ => panic!("Expected error"),
    }
}

#[test]
fn text_that_refers_to_no_environment_variable_stays_as_written() {
    let none = env(vec![]);
    assert_eq!(expand_text("price: $5 ${file.x} ${env.", &none).unwrap(), "price: $5 ${file.x} ${env.");
    assert_eq!(expand_text("", &none).unwrap(), "");
    let empty = env(vec![("EMPTY", "")]);
    assert_eq!(expand_text("a${env.EMPTY:-fallback}b", &empty).unwrap(), "afallbackb");
    assert_eq!(expand_text("a${env.EMPTY}b", &empty).unwrap(), "ab");
    assert_eq!(
        expand_text("${env.MISSING}", &none).unwrap_err(),
        "error looking key 'env.MISSING' up: environment variable not found"
    );
    let two = env(vec![("A", "1"), ("B", "2")]);
    assert_eq!(expand_text("${env.A}-${env.B}-${env.C:-3}", &two).unwrap(), "1-2-3");
}

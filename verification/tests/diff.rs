use rover_composition::config::{SchemaSource, SubgraphConfig, SupergraphConfigYaml};
use rover_composition::diff::SupergraphConfigDiff;
use rover_composition::name_map::NameMap;
use rover_composition::subgraph::ResolveSubgraphError;
use rover_composition::version::{FederationVersion, Version};

fn sdl_subgraph(url: Option<&str>, sdl: &str) -> SubgraphConfig {
    SubgraphConfig {
        routing_url: url.map(|u| u.to_string()),
        schema: SchemaSource::Sdl { sdl: sdl.to_string() },
    }
}

fn config(subgraphs: Vec<(&str, SubgraphConfig)>) -> SupergraphConfigYaml {
    let mut map = NameMap::new();
    for (name, subgraph) in subgraphs {
        map.insert(name.to_string(), subgraph);
    }
    SupergraphConfigYaml { subgraphs: map, federation_version: None }
}

fn names<T>(entries: &[(String, T)]) -> Vec<String> {
    entries.iter().map(|(name, _)| name.clone()).collect()
}

#[test]
fn test_supergraph_config_diff() {
    let old = config(vec![
        ("subgraph_a", sdl_subgraph(Some("url"), "sdl")),
        ("subgraph_b", sdl_subgraph(Some("url"), "sdl")),
    ]);
    let new = config(vec![
        ("subgraph_a", sdl_subgraph(Some("url"), "sdl")),
        ("subgraph_c", sdl_subgraph(Some("url"), "sdl")),
    ]);

    let diff = SupergraphConfigDiff::new(old, new, NameMap::new(), false).unwrap();
    assert_eq!(1, diff.added().len());
    assert_eq!(1, diff.removed().len());
    let (name, added) = &diff.added()[0];
    assert_eq!(name, "subgraph_c");
    assert_eq!(added.routing_url, Some("url".to_string()));
    assert!(matches!(&added.schema, SchemaSource::Sdl { sdl } if sdl == "sdl"));
    assert!(diff.removed().iter().any(|(name, _)| name == "subgraph_b"));
}

#[test]
fn diff_reports_an_in_place_change_of_a_registry_subgraph() {
    let old_subgraph = SubgraphConfig {
        routing_url: None,
        schema: SchemaSource::Subgraph { graphref: "graph-ref".to_string(), subgraph: "subgraph".to_string() },
    };
    let new_subgraph = SubgraphConfig {
        routing_url: None,
        schema: SchemaSource::Subgraph {
            graphref: "updated-graph-ref".to_string(),
            subgraph: "subgraph".to_string(),
        },
    };
    let old = config(vec![("subgraph_a", old_subgraph)]);
    let new = config(vec![("subgraph_a", new_subgraph)]);
    let diff = SupergraphConfigDiff::new(old, new, NameMap::new(), false).unwrap();
    assert_eq!(diff.changed().len(), 1);
    let (name, changed) = &diff.changed()[0];
    assert_eq!(name, "subgraph_a");
    assert!(matches!(&changed.schema, SchemaSource::Subgraph { graphref, .. } if graphref == "updated-graph-ref"));
    assert!(diff.added().is_empty());
    assert!(diff.removed().is_empty());
}

#[test]
fn diff_reports_an_in_place_change_of_inline_sdl() {
    let old = config(vec![("subgraph_a", sdl_subgraph(None, "old sdl"))]);
    let new = config(vec![("subgraph_a", sdl_subgraph(None, "new sdl"))]);
    let diff = SupergraphConfigDiff::new(old, new, NameMap::new(), false).unwrap();
    assert_eq!(names(diff.changed()), vec!["subgraph_a".to_string()]);
    assert!(matches!(&diff.changed()[0].1.schema, SchemaSource::Sdl { sdl } if sdl == "new sdl"));
}

#[test]
fn diff_of_a_config_with_itself_is_empty() {
    let old = config(vec![
        ("a", sdl_subgraph(Some("http://a"), "type Query { a: Int }")),
        ("b", sdl_subgraph(None, "type Query { b: Int }")),
    ]);
    let same = config(vec![
        ("b", sdl_subgraph(None, "type Query { b: Int }")),
        ("a", sdl_subgraph(Some("http://a"), "type Query { a: Int }")),
    ]);
    let diff = SupergraphConfigDiff::new(old, same, NameMap::new(), true).unwrap();
    assert!(diff.is_empty());
    assert!(diff.federation_version().is_none());
    assert!(diff.previously_broken());
}

#[test]
fn diff_lists_each_kind_in_name_order_with_resolution_errors() {
    let old = config(vec![
        ("zeta", sdl_subgraph(None, "z")),
        ("alpha", sdl_subgraph(None, "a")),
        ("mid", sdl_subgraph(None, "m")),
        ("gone", sdl_subgraph(None, "g")),
    ]);
    let new = config(vec![
        ("zeta", sdl_subgraph(None, "z2")),
        ("alpha", sdl_subgraph(Some("http://alpha"), "a")),
        ("mid", sdl_subgraph(None, "m")),
        ("new_b", sdl_subgraph(None, "b")),
        ("new_a", sdl_subgraph(None, "a")),
    ]);
    let mut errors = NameMap::new();
    errors.insert("gone".to_string(), ResolveSubgraphError::SupergraphConfigMissing);
    let diff = SupergraphConfigDiff::new(old, new, errors, false).unwrap();
    assert_eq!(names(diff.added()), vec!["new_a".to_string(), "new_b".to_string()]);
    assert_eq!(names(diff.changed()), vec!["alpha".to_string(), "zeta".to_string()]);
    assert_eq!(names(diff.removed()), vec!["gone".to_string()]);
    assert!(matches!(diff.removed()[0].1, Some(ResolveSubgraphError::SupergraphConfigMissing)));
    assert!(!diff.is_empty());
}

#[test]
fn diff_reports_a_new_federation_version_only_when_it_changes() {
    let mut old = config(vec![]);
    old.federation_version = Some(FederationVersion::LatestFedTwo);
    let mut new = config(vec![]);
    new.federation_version = Some(FederationVersion::ExactFedTwo(Version::release(2, 7, 1)));
    let diff = SupergraphConfigDiff::new(old, new, NameMap::new(), false).unwrap();
    match diff.federation_version() {
        Some(FederationVersion::ExactFedTwo(v)) => assert_eq!((v.major, v.minor, v.patch), (2, 7, 1)),
        other => panic!("unexpected {other:?}"),
    }

    let mut old = config(vec![]);
    old.federation_version = Some(FederationVersion::ExactFedTwo(Version::release(2, 7, 1)));
    let mut new = config(vec![]);
    new.federation_version = Some(FederationVersion::ExactFedTwo(Version::release(2, 7, 1)));
    let diff = SupergraphConfigDiff::new(old, new, NameMap::new(), false).unwrap();
    assert!(diff.federation_version().is_none());
}

use rover_composition::binary::InstallSupergraphError;
use rover_composition::composition::CompositionError;
use rover_composition::name_map::NameMap;
use rover_composition::subgraph::ResolveSubgraphError;
use rover_composition::supergraph::ResolveSupergraphConfigError;

#[test]
fn serde_yaml_message_excludes_its_cause() {
    let inner = serde_yaml::from_str::<serde_yaml::Value>("[1, 2").unwrap_err();
    let cause = inner.to_string();
    let err = CompositionError::SerdeYaml { source: cause.clone(), provenance: None };

    assert_eq!(err.message(), "Serialization error".to_string());
    assert_eq!(err.error_chain(), format!("Serialization error: {cause}"));
}

#[test]
fn error_updating_federation_version_message_excludes_its_cause() {
    let err = CompositionError::ErrorUpdatingFederationVersion(InstallSupergraphError::MissingDependency {
        err: "the plugin was not installed".to_string(),
    });

    assert_eq!(err.message(), "Error when updating Federation Version".to_string());
    assert_eq!(
        err.error_chain(),
        "Error when updating Federation Version: unable to find dependency: \"the plugin was not installed\""
            .to_string()
    );
}

#[test]
fn resolving_subgraphs_error_message_excludes_its_cause() {
    let err = CompositionError::ResolvingSubgraphsError {
        source: ResolveSupergraphConfigError::NoSource,
        provenance: None,
    };

    assert_eq!(err.message(), "Error resolving subgraphs".to_string());
    assert_eq!(err.error_chain(), "Error resolving subgraphs: No source found for supergraph config".to_string());
}

#[test]
fn install_supergraph_binary_error_message_excludes_its_cause() {
    let err = CompositionError::InstallSupergraphBinaryError {
        source: InstallSupergraphError::MissingDependency { err: "the plugin was not installed".to_string() },
    };

    assert_eq!(err.message(), "Could not install supergraph binary".to_string());
    assert_eq!(
        err.error_chain(),
        "Could not install supergraph binary: unable to find dependency: \"the plugin was not installed\"".to_string()
    );
}

#[test]
fn introspection_error_cause_is_not_duplicated() {
    let outer = ResolveSubgraphError::IntrospectionError {
        subgraph_name: "subgraph-name".to_string(),
        source: "introspection-marker".to_string(),
    };

    assert_eq!(outer.error_chain().matches("introspection-marker").count(), 1);
}

#[test]
fn fetch_remote_sdl_error_cause_is_not_duplicated() {
    let outer = ResolveSubgraphError::FetchRemoteSdlError {
        subgraph_name: "subgraph-name".to_string(),
        source: "fetch-remote-sdl-marker".to_string(),
    };

    assert_eq!(outer.error_chain().matches("fetch-remote-sdl-marker").count(), 1);
}

#[test]
fn resolve_subgraph_error_messages() {
    let not_found = ResolveSubgraphError::FileNotFound {
        subgraph_name: "products".to_string(),
        supergraph_config_path: "/work".to_string(),
        path: "products.graphql".to_string(),
        joined_path: "/work/products.graphql".to_string(),
        source: "No such file or directory (os error 2)".to_string(),
    };
    assert_eq!(
        not_found.message(),
        "Could not find schema file (products.graphql) relative to (/work) for subgraph `products`"
    );
    assert_eq!(
        not_found.error_chain(),
        "Could not find schema file (products.graphql) relative to (/work) for subgraph `products`: No such file or directory (os error 2)"
    );
    let missing_url = ResolveSubgraphError::MissingRoutingUrl { subgraph: "reviews".to_string() };
    assert_eq!(missing_url.message(), "Subgraph `reviews` is missing a routing url");
    assert_eq!(missing_url.error_chain(), "Subgraph `reviews` is missing a routing url");
    let invalid = ResolveSubgraphError::InvalidGraphRef { graph_ref: "bad@".to_string(), source: "x".to_string() };
    assert_eq!(invalid.message(), "Invalid graph ref: bad@");
}

#[test]
fn resolve_subgraphs_error_lists_each_subgraph_on_its_own_line() {
    let mut errors = NameMap::new();
    errors.insert("b".to_string(), ResolveSubgraphError::InvalidCliInput { input: "nope".to_string() });
    errors.insert("a".to_string(), ResolveSubgraphError::MissingRoutingUrl { subgraph: "a".to_string() });
    let err = ResolveSupergraphConfigError::ResolveSubgraphs(errors);
    assert_eq!(
        err.message(),
        "Unable to resolve subgraphs.\na: Subgraph `a` is missing a routing url\nb: Invalid input: nope"
    );
}

#[test]
fn install_errors_say_what_failed() {
    assert_eq!(InstallSupergraphError::LicenseNotAccepted.message(), "ELV2 license must be accepted");
    let plugin = InstallSupergraphError::Plugin { failure: "download failed".to_string() };
    assert_eq!(plugin.message(), "Couldn't obtain the `supergraph` plugin");
    assert_eq!(plugin.error_chain(), "Couldn't obtain the `supergraph` plugin: download failed");
}

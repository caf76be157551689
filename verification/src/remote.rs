//! Subgraphs from the graph registry and from introspection: the requests made for them, and
//! how what comes back becomes a resolved subgraph.
use vstd::prelude::*;

use crate::config::{SchemaSource, SchemaSourceView};
use crate::subgraph::{declares_link, FullyResolvedSubgraph, ResolveSubgraphError};
use crate::text::opt_string_view;

verus! {

/// A subgraph fetched from the graph registry.
#[derive(Debug)]
pub struct RemoteSubgraph {
    pub name: String,
    pub routing_url: String,
    pub schema: String,
}

/// What kind of SDL the graph registry returned.
#[derive(Debug)]
pub enum SdlType {
    /// The SDL of a monolithic graph.
    Graph,
    /// The SDL of a subgraph, with its routing URL where the registry has one.
    Subgraph { routing_url: Option<String> },
    /// The SDL of a supergraph.
    Supergraph,
}

/// The SDL the graph registry returned: its text and its kind.
#[derive(Debug)]
pub struct FetchedSdl {
    pub contents: String,
    pub sdl_type: SdlType,
}

/// Errors that may occur when fetching a subgraph from the graph registry.
#[derive(Debug)]
pub enum FetchRemoteSubgraphError {
    /// The client failed; the text of its error.
    RoverClient(String),
    /// The registry returned SDL that is not a subgraph's with a routing URL.
    InvalidSdlType(SdlType),
    /// The service failed to become ready; the text of its error.
    Service(String),
}

/// Errors that may occur when making the service that fetches a subgraph.
#[derive(Debug)]
pub enum MakeFetchRemoteSubgraphError {
    /// The factory failed to become ready.
    ReadyFailed(String),
    /// The client could not be made.
    StudioClient(String),
}

/// Errors that may occur when making the service that fetches all subgraphs of a graph.
#[derive(Debug)]
pub enum MakeFetchRemoteSubgraphsError {
    /// The factory failed to become ready.
    ReadyFailed(String),
    /// The client could not be made.
    StudioClient(String),
}

/// A request for one subgraph of a graph in the registry.
#[derive(Debug)]
pub struct FetchRemoteSubgraphRequest {
    pub subgraph_name: String,
    pub graph_ref: String,
}

/// A request for all subgraphs of a graph in the registry.
#[derive(Debug)]
pub struct FetchRemoteSubgraphsRequest {
    pub graph_ref: String,
}

impl FetchRemoteSubgraphsRequest {
    /// A request for the subgraphs of the graph `graph_ref`.
    pub fn new(graph_ref: String) -> (r: FetchRemoteSubgraphsRequest)
        ensures
            r.graph_ref == graph_ref,
    {
        FetchRemoteSubgraphsRequest { graph_ref }
    }
}

/// Fetches a subgraph from the registry through the client `inner`.
#[derive(Debug)]
pub struct FetchRemoteSubgraph<S> {
    pub inner: S,
}

impl<S> FetchRemoteSubgraph<S> {
    /// A fetcher that goes through `inner`.
    pub fn new(inner: S) -> (r: FetchRemoteSubgraph<S>)
        ensures
            r.inner == inner,
    {
        FetchRemoteSubgraph { inner }
    }

    /// The subgraph `subgraph_name`, given what the registry answered: its SDL must be a
    /// subgraph's with a routing URL.
    pub fn remote_subgraph(
        subgraph_name: String,
        fetched: Result<FetchedSdl, String>,
    ) -> (r: Result<RemoteSubgraph, FetchRemoteSubgraphError>)
        ensures
            match fetched {
                Err(e) => r == Err::<RemoteSubgraph, FetchRemoteSubgraphError>(FetchRemoteSubgraphError::RoverClient(e)),
                Ok(sdl) => match sdl.sdl_type {
                    SdlType::Subgraph { routing_url: Some(u) } => r == Ok::<RemoteSubgraph, FetchRemoteSubgraphError>(
                        RemoteSubgraph { name: subgraph_name, routing_url: u, schema: sdl.contents },
                    ),
                    t => r == Err::<RemoteSubgraph, FetchRemoteSubgraphError>(FetchRemoteSubgraphError::InvalidSdlType(t)),
                },
            },
    {
        match fetched {
            Err(e) => Err(FetchRemoteSubgraphError::RoverClient(e)),
            Ok(FetchedSdl { contents, sdl_type }) => match sdl_type {
                SdlType::Subgraph { routing_url: Some(routing_url) } => Ok(
                    RemoteSubgraph { name: subgraph_name, routing_url, schema: contents },
                ),
                other => Err(FetchRemoteSubgraphError::InvalidSdlType(other)),
            },
        }
    }
}

/// Fetches all subgraphs of a graph from the registry through the client `inner`.
#[derive(Debug)]
pub struct FetchRemoteSubgraphs<S> {
    pub inner: S,
}

impl<S> FetchRemoteSubgraphs<S> {
    /// A fetcher that goes through `inner`.
    pub fn new(inner: S) -> (r: FetchRemoteSubgraphs<S>)
        ensures
            r.inner == inner,
    {
        FetchRemoteSubgraphs { inner }
    }
}

/// Fetches a subgraph's SDL once through `inner`, naming the subgraph `subgraph_name` and
/// routing it to `routing_url`.
#[derive(Debug)]
pub struct ResolveIntrospectSubgraph<S> {
    pub inner: S,
    pub subgraph_name: String,
    pub routing_url: String,
    pub schema_source: SchemaSource,
}

impl<S> ResolveIntrospectSubgraph<S> {
    /// A resolver of the subgraph `subgraph_name`, introspected at `endpoint` with the headers
    /// `introspection_headers`, routed to `routing_url` where one is given and to the endpoint
    /// otherwise.
    pub fn new(
        inner: S,
        subgraph_name: String,
        endpoint: String,
        routing_url: Option<String>,
        introspection_headers: Option<crate::name_map::NameMap<String>>,
    ) -> (r: ResolveIntrospectSubgraph<S>)
        ensures
            r.inner == inner,
            r.subgraph_name == subgraph_name,
            r.routing_url@ == match routing_url {
                Some(u) => u@,
                None => endpoint@,
            },
            r.schema_source@ == (SchemaSourceView::SubgraphIntrospection {
                subgraph_url: endpoint@,
                introspection_headers: match introspection_headers {
                    Some(h) => Some(crate::config::string_pairs(&h)),
                    None => None,
                },
            }),
    {
        let resolved_url = match routing_url {
            Some(u) => u,
            None => endpoint.clone(),
        };
        ResolveIntrospectSubgraph {
            inner,
            subgraph_name,
            routing_url: resolved_url,
            schema_source: SchemaSource::SubgraphIntrospection { subgraph_url: endpoint, introspection_headers },
        }
    }

    /// The resolved subgraph, given the outcome of introspecting it: its SDL, or the text of the
    /// error, which fails as an introspection error.
    pub fn resolved(&self, introspected: Result<String, String>) -> (r: Result<FullyResolvedSubgraph, ResolveSubgraphError>)
        ensures
            match introspected {
                Ok(sdl) => r matches Ok(s) && s.name == self.subgraph_name && s.routing_url == Some(self.routing_url)
                    && s.schema == sdl && s.schema_source@ == self.schema_source@ && s.is_fed_two == declares_link(sdl@),
                Err(e) => r == Err::<FullyResolvedSubgraph, ResolveSubgraphError>(
                    ResolveSubgraphError::IntrospectionError { subgraph_name: self.subgraph_name, source: e },
                ),
            },
    {
        match introspected {
            Ok(sdl) => Ok(
                FullyResolvedSubgraph::new(
                    self.subgraph_name.clone(),
                    sdl,
                    Some(self.routing_url.clone()),
                    self.schema_source.copy(),
                ),
            ),
            Err(e) => Err(ResolveSubgraphError::IntrospectionError { subgraph_name: self.subgraph_name.clone(), source: e }),
        }
    }
}

} // verus!

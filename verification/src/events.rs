//! The events a live session passes along: what changed in a subgraph, what a composition
//! watcher is asked to act on, and what it reports.
use vstd::prelude::*;

use crate::composition::{CompositionError, CompositionSuccess};
use crate::config::SchemaSource;
use crate::subgraph::{declares_link, FullyResolvedSubgraph, ResolveSubgraphError};
use crate::version::FederationVersion;

verus! {

/// A subgraph's SDL changed: its name, the new SDL, its routing URL and where the SDL comes
/// from.
#[derive(Debug)]
pub struct SubgraphSchemaChanged {
    pub name: String,
    pub sdl: String,
    pub routing_url: Option<String>,
    pub schema_source: SchemaSource,
}

impl SubgraphSchemaChanged {
    /// A change to the SDL of the subgraph `name`, routed to `routing_url`.
    pub fn new(name: String, sdl: String, routing_url: String, schema_source: SchemaSource) -> (r: SubgraphSchemaChanged)
        ensures
            r.name == name,
            r.sdl == sdl,
            r.routing_url == Some(routing_url),
            r.schema_source == schema_source,
    {
        SubgraphSchemaChanged { name, sdl, routing_url: Some(routing_url), schema_source }
    }

    /// The change a freshly resolved subgraph makes.
    pub fn from_subgraph(subgraph: FullyResolvedSubgraph) -> (r: SubgraphSchemaChanged)
        ensures
            r.name == subgraph.name,
            r.sdl == subgraph.schema,
            r.routing_url == subgraph.routing_url,
            r.schema_source == subgraph.schema_source,
    {
        SubgraphSchemaChanged {
            name: subgraph.name,
            sdl: subgraph.schema,
            routing_url: subgraph.routing_url,
            schema_source: subgraph.schema_source,
        }
    }

    /// The subgraph this change describes; it is a Federation 2 subgraph when its SDL applies
    /// `@link` to its schema.
    pub fn into_subgraph(self) -> (r: FullyResolvedSubgraph)
        ensures
            r.name == self.name,
            r.schema == self.sdl,
            r.routing_url == self.routing_url,
            r.schema_source == self.schema_source,
            r.is_fed_two == declares_link(self.sdl@),
    {
        FullyResolvedSubgraph::new(self.name, self.sdl, self.routing_url, self.schema_source)
    }
}

/// A subgraph's routing URL changed.
#[derive(Debug)]
pub struct SubgraphRoutingUrlChanged {
    pub name: String,
    pub routing_url: Option<String>,
}

/// A subgraph is no longer watched, with the error that kept it from resolving, if one did.
#[derive(Debug)]
pub struct SubgraphSchemaRemoved {
    pub name: String,
    pub resolution_error: Option<ResolveSubgraphError>,
}

/// What happened to a watched subgraph.
#[derive(Debug)]
pub enum SubgraphEvent {
    SubgraphSchemaChanged(SubgraphSchemaChanged),
    RoutingUrlChanged(SubgraphRoutingUrlChanged),
    SubgraphRemoved(SubgraphSchemaRemoved),
}

/// A subgraph joined the composition.
#[derive(Debug)]
pub struct CompositionSubgraphAdded {
    pub name: String,
    pub schema_source: SchemaSource,
}

/// A subgraph left the composition, with the error that kept it from resolving, if one did.
#[derive(Debug)]
pub struct CompositionSubgraphRemoved {
    pub name: String,
    pub resolution_error: Option<ResolveSubgraphError>,
}

/// What a composition watcher reports.
#[derive(Debug)]
pub enum CompositionEvent {
    /// A composition started.
    Started,
    /// A composition succeeded.
    Success(CompositionSuccess),
    /// A composition failed.
    Error(CompositionError),
    /// A subgraph joined.
    SubgraphAdded(CompositionSubgraphAdded),
    /// A subgraph left.
    SubgraphRemoved(CompositionSubgraphRemoved),
}

/// What a composition watcher is asked to act on.
#[derive(Debug)]
pub enum CompositionInputEvent {
    /// A subgraph changed.
    Subgraph(SubgraphEvent),
    /// The federation version changed.
    Federation(FederationVersion),
    /// Compose again, nothing else having changed.
    Recompose,
    /// Pass this event on without composing.
    Passthrough(CompositionEvent),
}

/// A copy of an optional resolution error.
pub fn copy_opt_error(e: &Option<ResolveSubgraphError>) -> (r: Option<ResolveSubgraphError>)
    ensures
        r == *e,
{
    match e {
        Some(e) => Some(e.copy()),
        None => None,
    }
}

} // verus!

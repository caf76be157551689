//! The small pieces of a live session: schema sources that are read once, and the messages the
//! session passes to the router.
use vstd::prelude::*;

verus! {

/// SDL a user wrote into the supergraph config.
#[derive(Debug)]
pub struct Sdl {
    sdl: String,
}

impl Sdl {
    /// The SDL the user wrote.
    pub closed spec fn spec_sdl(&self) -> String {
        self.sdl
    }

    /// Holds `sdl`.
    pub fn new(sdl: String) -> (r: Sdl)
        ensures
            r.spec_sdl() == sdl,
    {
        Sdl { sdl }
    }

    /// The SDL, each time it is asked for.
    pub fn run(&self) -> (r: String)
        ensures
            r == self.spec_sdl(),
    {
        self.sdl.clone()
    }
}

/// A subgraph of a graph in the registry, by graph ref and subgraph name.
#[derive(Debug)]
pub struct RemoteSchema {
    pub graph_ref: String,
    pub subgraph: String,
}

impl RemoteSchema {
    /// The subgraph `subgraph` of the graph `graph_ref`.
    pub fn new(graph_ref: String, subgraph: String) -> (r: RemoteSchema)
        ensures
            r.graph_ref == graph_ref,
            r.subgraph == subgraph,
    {
        RemoteSchema { graph_ref, subgraph }
    }
}

/// A change to the router's config.
#[derive(Debug)]
pub enum RouterConfigMessage {
    /// The router config now reads as this.
    Changed(String),
}

/// What a session tells the developer's router.
#[derive(Debug)]
pub enum RoverDevMessage {
    Config(RouterConfigMessage),
}

impl RoverDevMessage {
    /// The message that passes on a change to the router's config.
    pub fn from_router_config(value: RouterConfigMessage) -> (r: RoverDevMessage)
        ensures
            r == RoverDevMessage::Config(value),
    {
        RoverDevMessage::Config(value)
    }
}

/// Writes the router's config to a file.
#[derive(Debug)]
pub struct WriteRouterConfig {
    pub path: String,
}

impl WriteRouterConfig {
    /// A writer to the file at `path`.
    pub fn new(path: String) -> (r: WriteRouterConfig)
        ensures
            r.path == path,
    {
        WriteRouterConfig { path }
    }
}

} // verus!

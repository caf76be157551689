//! The composition core of a supergraph CLI: supergraph and subgraph configuration, federation
//! version resolution, the resolution of subgraph schema sources, the diffing of supergraph
//! configs, and the decisions that drive live recomposition.
pub mod name_map;
pub mod text;
pub mod version;
pub mod config;
pub mod subgraph;
pub mod federation;
pub mod supergraph;
pub mod diff;
pub mod subgraphs;
pub mod resolver;
pub mod binary;
pub mod pipeline;
pub mod composition;
pub mod native;
pub mod events;
pub mod watchers;
pub mod remote;
pub mod resolution;
pub mod session;
pub mod messages;
pub mod expansion;

//! Full resolution of a subgraph down to its SDL, once what its schema source needs from
//! outside (a file read, an introspection, a fetch from the graph registry) has been done.
use vstd::prelude::*;

use crate::config::{SchemaSource, SchemaSourceView};
use crate::remote::RemoteSubgraph;
use crate::subgraph::{
    declares_link, path_join, FullyResolvedSubgraph, LazilyResolvedSubgraph, ResolveSubgraphError,
    UnresolvedSubgraph,
};
use crate::text::opt_string_view;

verus! {

/// Why fetching a subgraph from the graph registry failed; the text of the error.
#[derive(Debug)]
pub enum RemoteFetchFailure {
    /// The graph ref could not be read.
    InvalidGraphRef(String),
    /// The fetch failed.
    Fetch(String),
}

/// What was done outside for a subgraph's schema source.
#[derive(Debug)]
pub enum SchemaFetch {
    /// For a schema file: what canonicalizing its path gave (where it had to be), and what
    /// reading it gave.
    File { canonicalized: Result<String, String>, read: Result<String, String> },
    /// For an introspected subgraph: its SDL, or the text of the error.
    Introspected(Result<String, String>),
    /// For a subgraph of the graph registry: the subgraph, or why it could not be had.
    Remote(Result<RemoteSubgraph, RemoteFetchFailure>),
    /// For SDL written in the config: nothing.
    Nothing,
}

/// Whether what was done outside is what the schema source needs.
pub open spec fn fetch_fits(schema: SchemaSourceView, fetched: SchemaFetch) -> bool {
    match schema {
        SchemaSourceView::File { .. } => fetched is File,
        SchemaSourceView::SubgraphIntrospection { .. } => fetched is Introspected,
        SchemaSourceView::Subgraph { .. } => fetched is Remote,
        SchemaSourceView::Sdl { .. } => fetched is Nothing,
    }
}

/// Whether `s` is the subgraph `name` with the SDL `schema`, routed to `routing_url`, whose SDL
/// comes from `schema_source`.
pub open spec fn is_subgraph(
    s: FullyResolvedSubgraph,
    name: Seq<char>,
    schema: Seq<char>,
    routing_url: Option<Seq<char>>,
    schema_source: SchemaSourceView,
) -> bool {
    &&& s.name@ == name
    &&& s.schema@ == schema
    &&& opt_string_view(&s.routing_url) == routing_url
    &&& s.schema_source@ == schema_source
    &&& s.is_fed_two == declares_link(schema)
}

/// Whether `r` is what resolving the subgraph `name`, routed to `routing_url`, with the SDL
/// from `schema_source`, gives once `fetched` was done; `file` is the path its schema file is
/// read from, where it has one.
pub open spec fn resolved_from(
    name: Seq<char>,
    routing_url: Option<Seq<char>>,
    schema_source: SchemaSourceView,
    fetched: SchemaFetch,
    r: Result<FullyResolvedSubgraph, ResolveSubgraphError>,
) -> bool {
    match (schema_source, fetched) {
        (SchemaSourceView::File { .. }, SchemaFetch::File { read, .. }) => match read {
            Ok(sdl) => r matches Ok(s) && is_subgraph(s, name, sdl@, routing_url, schema_source),
            Err(e) => r == Err::<FullyResolvedSubgraph, ResolveSubgraphError>(ResolveSubgraphError::Fs { source: e }),
        },
        (SchemaSourceView::SubgraphIntrospection { subgraph_url, .. }, SchemaFetch::Introspected(outcome)) => match outcome {
            Ok(sdl) => r matches Ok(s) && is_subgraph(
                s,
                name,
                sdl@,
                match routing_url {
                    Some(u) => Some(u),
                    None => Some(subgraph_url),
                },
                schema_source,
            ),
            Err(e) => r matches Err(ResolveSubgraphError::IntrospectionError { subgraph_name, source }) && subgraph_name@
                == name && source == e,
        },
        (SchemaSourceView::Subgraph { graphref, subgraph }, SchemaFetch::Remote(outcome)) => match outcome {
            Ok(remote) => r matches Ok(s) && is_subgraph(
                s,
                name,
                remote.schema@,
                match routing_url {
                    Some(u) => Some(u),
                    None => Some(remote.routing_url@),
                },
                schema_source,
            ),
            Err(RemoteFetchFailure::InvalidGraphRef(e)) => r matches Err(
                ResolveSubgraphError::InvalidGraphRef { graph_ref, source },
            ) && graph_ref@ == graphref && source == e,
            Err(RemoteFetchFailure::Fetch(e)) => r matches Err(
                ResolveSubgraphError::FetchRemoteSdlError { subgraph_name, source },
            ) && subgraph_name@ == subgraph && source == e,
        },
        (SchemaSourceView::Sdl { sdl }, SchemaFetch::Nothing) => match routing_url {
            Some(_) => r matches Ok(s) && is_subgraph(s, name, sdl, routing_url, schema_source),
            None => r matches Err(ResolveSubgraphError::MissingRoutingUrl { subgraph }) && subgraph@ == name,
        },
        _ => false,
    }
}

/// Whether `r` is what fully resolving the subgraph `name`, routed to `routing_url`, with the
/// SDL from `schema_source`, gives once `fetched` was done, a schema file being looked for
/// relative to the directory `root`: there must be one, and the file's path must have been
/// canonicalized; then as [`resolved_from`] says.
pub open spec fn fully_resolved_as(
    root: Option<Seq<char>>,
    name: Seq<char>,
    routing_url: Option<Seq<char>>,
    schema_source: SchemaSourceView,
    fetched: SchemaFetch,
    r: Result<FullyResolvedSubgraph, ResolveSubgraphError>,
) -> bool {
    match (schema_source, fetched) {
        (SchemaSourceView::File { file }, SchemaFetch::File { canonicalized, .. }) => match root {
            None => r matches Err(ResolveSubgraphError::SupergraphConfigMissing),
            Some(root) => match canonicalized {
                Err(e) => r matches Err(ResolveSubgraphError::FileNotFound {
                    subgraph_name,
                    supergraph_config_path,
                    path,
                    joined_path,
                    source,
                }) && subgraph_name@ == name && supergraph_config_path@ == root && path@ == file
                    && joined_path@ == path_join(root, file) && source == e,
                Ok(_) => resolved_from(name, routing_url, schema_source, fetched, r),
            },
        },
        _ => resolved_from(name, routing_url, schema_source, fetched, r),
    }
}

/// The SDL fully resolving a subgraph routed to `routing_url`, with the SDL from
/// `schema_source`, gives once `fetched` was done, a schema file being looked for relative to
/// `root`; `None` where it fails.
pub open spec fn resolved_sdl(
    root: Option<Seq<char>>,
    routing_url: Option<Seq<char>>,
    schema_source: SchemaSourceView,
    fetched: SchemaFetch,
) -> Option<Seq<char>> {
    match (schema_source, fetched) {
        (SchemaSourceView::File { .. }, SchemaFetch::File { canonicalized, read }) => if root is Some
            && canonicalized is Ok {
            match read {
                Ok(sdl) => Some(sdl@),
                Err(_) => None,
            }
        } else {
            None
        },
        (SchemaSourceView::SubgraphIntrospection { .. }, SchemaFetch::Introspected(Ok(sdl))) => Some(sdl@),
        (SchemaSourceView::Subgraph { .. }, SchemaFetch::Remote(Ok(remote))) => Some(remote.schema@),
        (SchemaSourceView::Sdl { sdl }, SchemaFetch::Nothing) => if routing_url is Some {
            Some(sdl)
        } else {
            None
        },
        _ => None,
    }
}

/// Fully resolving a subgraph succeeds exactly when [`resolved_sdl`] gives an SDL, and the
/// subgraph it gives has that SDL, being a Federation 2 subgraph when the SDL applies `@link`
/// to its schema.
pub proof fn lemma_fully_resolved_sdl(
    root: Option<Seq<char>>,
    name: Seq<char>,
    routing_url: Option<Seq<char>>,
    schema_source: SchemaSourceView,
    fetched: SchemaFetch,
    r: Result<FullyResolvedSubgraph, ResolveSubgraphError>,
)
    requires
        fetch_fits(schema_source, fetched),
        fully_resolved_as(root, name, routing_url, schema_source, fetched, r),
    ensures
        (r is Ok) == (resolved_sdl(root, routing_url, schema_source, fetched) is Some),
        r matches Ok(s) ==> s.schema@ == resolved_sdl(root, routing_url, schema_source, fetched).unwrap() && s.is_fed_two
            == declares_link(s.schema@),
{
}

/// Resolves the subgraph `name`, routed to `routing_url`, with the SDL from `schema_source`,
/// once `fetched` was done: a schema file's SDL is what was read; an introspected subgraph's is
/// what introspection gave, routed to its introspection URL where it has no routing URL; a
/// registry subgraph's is what the registry gave, routed as the registry says where it has no
/// routing URL; SDL written in the config is taken as it is, and must come with a routing URL.
fn resolve_source(
    name: String,
    routing_url: Option<String>,
    schema_source: SchemaSource,
    fetched: SchemaFetch,
) -> (r: Result<FullyResolvedSubgraph, ResolveSubgraphError>)
    requires
        fetch_fits(schema_source@, fetched),
    ensures
        resolved_from(name@, opt_string_view(&routing_url), schema_source@, fetched, r),
{
    match fetched {
        SchemaFetch::File { read, .. } => match read {
            Ok(sdl) => Ok(FullyResolvedSubgraph::new(name, sdl, routing_url, schema_source)),
            Err(e) => Err(ResolveSubgraphError::Fs { source: e }),
        },
        SchemaFetch::Introspected(outcome) => match outcome {
            Ok(sdl) => {
                let routing_url = match routing_url {
                    Some(u) => Some(u),
                    None => match &schema_source {
                        SchemaSource::SubgraphIntrospection { subgraph_url, .. } => Some(subgraph_url.clone()),
                        _ => None,
                    },
                };
                Ok(FullyResolvedSubgraph::new(name, sdl, routing_url, schema_source))
            },
            Err(e) => Err(ResolveSubgraphError::IntrospectionError { subgraph_name: name, source: e }),
        },
        SchemaFetch::Remote(outcome) => match outcome {
            Ok(remote) => {
                let routing_url = match routing_url {
                    Some(u) => Some(u),
                    None => Some(remote.routing_url),
                };
                Ok(FullyResolvedSubgraph::new(name, remote.schema, routing_url, schema_source))
            },
            Err(RemoteFetchFailure::InvalidGraphRef(e)) => {
                let graph_ref = match &schema_source {
                    SchemaSource::Subgraph { graphref, .. } => graphref.clone(),
                    _ => String::new(),
                };
                Err(ResolveSubgraphError::InvalidGraphRef { graph_ref, source: e })
            },
            Err(RemoteFetchFailure::Fetch(e)) => {
                let subgraph_name = match &schema_source {
                    SchemaSource::Subgraph { subgraph, .. } => subgraph.clone(),
                    _ => String::new(),
                };
                Err(ResolveSubgraphError::FetchRemoteSdlError { subgraph_name, source: e })
            },
        },
        SchemaFetch::Nothing => {
            if routing_url.is_none() {
                return Err(ResolveSubgraphError::MissingRoutingUrl { subgraph: name });
            }
            let sdl = match &schema_source {
                SchemaSource::Sdl { sdl } => sdl.clone(),
                _ => String::new(),
            };
            Ok(FullyResolvedSubgraph::new(name, sdl, routing_url, schema_source))
        },
    }
}

impl FullyResolvedSubgraph {
    /// Resolves an unresolved subgraph down to its SDL, once `fetched` was done for its schema
    /// source. A schema file is looked for relative to `supergraph_config_root`: there must be
    /// one, and the file's path must have been canonicalized.
    pub fn resolve(
        supergraph_config_root: Option<&String>,
        unresolved_subgraph: UnresolvedSubgraph,
        fetched: SchemaFetch,
    ) -> (r: Result<FullyResolvedSubgraph, ResolveSubgraphError>)
        requires
            fetch_fits(unresolved_subgraph.schema@, fetched),
        ensures
            fully_resolved_as(
                match supergraph_config_root {
                    Some(root) => Some(root@),
                    None => None,
                },
                unresolved_subgraph.name@,
                opt_string_view(&unresolved_subgraph.routing_url),
                unresolved_subgraph.schema@,
                fetched,
                r,
            ),
    {
        if let SchemaSource::File { file } = &unresolved_subgraph.schema {
            if let SchemaFetch::File { canonicalized, .. } = &fetched {
                let root = match supergraph_config_root {
                    Some(root) => root,
                    None => return Err(ResolveSubgraphError::SupergraphConfigMissing),
                };
                let canonical = match canonicalized {
                    Ok(c) => Ok(c.clone()),
                    Err(e) => Err(e.clone()),
                };
                unresolved_subgraph.resolve_file_path(root, file, canonical)?;
            }
        }
        let UnresolvedSubgraph { name, schema, routing_url } = unresolved_subgraph;
        resolve_source(name, routing_url, schema, fetched)
    }

    /// Resolves a lazily resolved subgraph down to its SDL, once `fetched` was done for its
    /// schema source; a schema file's path is already canonical.
    pub fn fully_resolve(
        lazily_resolved_subgraph: LazilyResolvedSubgraph,
        fetched: SchemaFetch,
    ) -> (r: Result<FullyResolvedSubgraph, ResolveSubgraphError>)
        requires
            fetch_fits(lazily_resolved_subgraph.schema@, fetched),
        ensures
            resolved_from(
                lazily_resolved_subgraph.name@,
                opt_string_view(&lazily_resolved_subgraph.routing_url),
                lazily_resolved_subgraph.schema@,
                fetched,
                r,
            ),
    {
        let LazilyResolvedSubgraph { name, routing_url, schema } = lazily_resolved_subgraph;
        resolve_source(name, routing_url, schema, fetched)
    }
}

} // verus!

//! Subgraphs at each stage of resolution: unresolved, as the config gives them; lazily resolved,
//! with their schema file paths made canonical; and fully resolved, down to an SDL.
use vstd::prelude::*;

use crate::config::{SchemaSource, SchemaSourceView, SubgraphConfig, SubgraphConfigView};
use crate::text::{copy_opt_string, opt_string_view};

verus! {

/// Errors that may occur as a result of resolving subgraphs. Each `source` is the text of the
/// error that caused it.
#[derive(Debug)]
pub enum ResolveSubgraphError {
    /// The subgraph schema file cannot be found relative to the supergraph config.
    FileNotFound {
        subgraph_name: String,
        supergraph_config_path: String,
        path: String,
        joined_path: String,
        source: String,
    },
    /// An IO error.
    Io { source: String },
    /// An error reading a file.
    Fs { source: String },
    /// Introspecting a subgraph failed.
    IntrospectionError { subgraph_name: String, source: String },
    /// A graph ref could not be parsed.
    InvalidGraphRef { graph_ref: String, source: String },
    /// Fetching a subgraph from the graph registry failed.
    FetchRemoteSdlError { subgraph_name: String, source: String },
    /// A supergraph config path was needed and is missing.
    SupergraphConfigMissing,
    /// Invalid input from the user in answer to a prompt.
    InvalidCliInput { input: String },
    /// A subgraph has no routing URL where one is required.
    MissingRoutingUrl { subgraph: String },
    /// An introspection header name is invalid.
    HeaderName { source: String },
    /// An introspection header value is invalid.
    HeaderValue { source: String },
    /// A service failed to become ready.
    ServiceReady { source: String },
    /// A subgraph URL could not be parsed.
    ParsingSubgraphUrlError { source: String },
    /// A path is not valid UTF-8.
    ParsingUt8FilePathError { source: String },
}

impl ResolveSubgraphError {
    /// A copy of this error.
    pub fn copy(&self) -> (r: ResolveSubgraphError)
        ensures
            r == *self,
    {
        match self {
            ResolveSubgraphError::FileNotFound {
                subgraph_name,
                supergraph_config_path,
                path,
                joined_path,
                source,
            } => ResolveSubgraphError::FileNotFound {
                subgraph_name: subgraph_name.clone(),
                supergraph_config_path: supergraph_config_path.clone(),
                path: path.clone(),
                joined_path: joined_path.clone(),
                source: source.clone(),
            },
            ResolveSubgraphError::Io { source } => ResolveSubgraphError::Io { source: source.clone() },
            ResolveSubgraphError::Fs { source } => ResolveSubgraphError::Fs { source: source.clone() },
            ResolveSubgraphError::IntrospectionError { subgraph_name, source } => {
                ResolveSubgraphError::IntrospectionError {
                    subgraph_name: subgraph_name.clone(),
                    source: source.clone(),
                }
            },
            ResolveSubgraphError::InvalidGraphRef { graph_ref, source } => {
                ResolveSubgraphError::InvalidGraphRef {
                    graph_ref: graph_ref.clone(),
                    source: source.clone(),
                }
            },
            ResolveSubgraphError::FetchRemoteSdlError { subgraph_name, source } => {
                ResolveSubgraphError::FetchRemoteSdlError {
                    subgraph_name: subgraph_name.clone(),
                    source: source.clone(),
                }
            },
            ResolveSubgraphError::SupergraphConfigMissing => ResolveSubgraphError::SupergraphConfigMissing,
            ResolveSubgraphError::InvalidCliInput { input } => ResolveSubgraphError::InvalidCliInput {
                input: input.clone(),
            },
            ResolveSubgraphError::MissingRoutingUrl { subgraph } => {
                ResolveSubgraphError::MissingRoutingUrl { subgraph: subgraph.clone() }
            },
            ResolveSubgraphError::HeaderName { source } => ResolveSubgraphError::HeaderName {
                source: source.clone(),
            },
            ResolveSubgraphError::HeaderValue { source } => ResolveSubgraphError::HeaderValue {
                source: source.clone(),
            },
            ResolveSubgraphError::ServiceReady { source } => ResolveSubgraphError::ServiceReady {
                source: source.clone(),
            },
            ResolveSubgraphError::ParsingSubgraphUrlError { source } => {
                ResolveSubgraphError::ParsingSubgraphUrlError { source: source.clone() }
            },
            ResolveSubgraphError::ParsingUt8FilePathError { source } => {
                ResolveSubgraphError::ParsingUt8FilePathError { source: source.clone() }
            },
        }
    }
}

/// The names of the directives that `apollo-parser` finds applied to the schema definitions
/// and schema extensions of the document `sdl`, in document order; `None` stands for a
/// directive the parser could not name.
pub uninterp spec fn schema_directive_names(sdl: Seq<char>) -> Seq<Option<Seq<char>>>;

/// Parses `sdl` with `apollo_parser::Parser` and lists the names of the directives on its
/// schema definitions and extensions. Claims only that the list is `schema_directive_names` of
/// the SDL: GraphQL's grammar and the parser's error recovery are left to the crate.
#[verifier::external_body]
fn directive_names_on_schema(sdl: &str) -> (names: Vec<Option<String>>)
    ensures
        names@.map_values(|n: Option<String>| opt_string_view(&n)) == schema_directive_names(sdl@),
{
    let document = apollo_parser::Parser::new(sdl).parse().document();
    let mut names = Vec::new();
    for definition in document.definitions() {
        let directives = match definition {
            apollo_parser::cst::Definition::SchemaExtension(ext) => ext.directives(),
            apollo_parser::cst::Definition::SchemaDefinition(def) => def.directives(),
            _ => None,
        };
        for directive in directives.into_iter().flat_map(|d| d.directives()) {
            names.push(directive.name().map(|name| name.text().to_string()));
        }
    }
    names
}

/// The SDL applies `@link` to its schema: it is a Federation 2 subgraph.
pub open spec fn declares_link(sdl: Seq<char>) -> bool {
    schema_directive_names(sdl).contains(Some("link"@))
}

/// Whether the SDL applies the `@link` directive to its schema definition or a schema extension.
pub fn schema_contains_link_directive(sdl: &str) -> (b: bool)
    ensures
        b == declares_link(sdl@),
{
    let names = directive_names_on_schema(sdl);
    let ghost views = names@.map_values(|n: Option<String>| opt_string_view(&n));
    let link = "link".to_owned();
    let mut i: usize = 0;
    while i < names.len()
        invariant
            i <= names@.len(),
            views == names@.map_values(|n: Option<String>| opt_string_view(&n)),
            views == schema_directive_names(sdl@),
            link@ == "link"@,
            forall|j: int| 0 <= j < i ==> views[j] != Some("link"@),
        decreases names@.len() - i,
    {
        match &names[i] {
            Some(name) => {
                if *name == link {
                    assert(views[i as int] == Some("link"@));
                    return true;
                }
            },
            None => {},
        }
        i = i + 1;
    }
    false
}

/// A subgraph resolved down to an SDL.
#[derive(Debug)]
pub struct FullyResolvedSubgraph {
    pub name: String,
    pub routing_url: Option<String>,
    pub schema: String,
    pub schema_source: SchemaSource,
    pub is_fed_two: bool,
}

impl FullyResolvedSubgraph {
    /// A resolved subgraph; it is a Federation 2 subgraph when its SDL applies `@link` to its
    /// schema.
    pub fn new(
        name: String,
        schema: String,
        routing_url: Option<String>,
        schema_source: SchemaSource,
    ) -> (r: FullyResolvedSubgraph)
        ensures
            r.name == name,
            r.schema == schema,
            r.routing_url == routing_url,
            r.schema_source == schema_source,
            r.is_fed_two == declares_link(schema@),
    {
        let is_fed_two = schema_contains_link_directive(schema.as_str());
        FullyResolvedSubgraph { name, routing_url, schema, schema_source, is_fed_two }
    }

    /// Replaces this subgraph's SDL and nothing else.
    pub fn update_schema(&mut self, schema: String)
        ensures
            final(self).schema == schema,
            final(self).name == old(self).name,
            final(self).routing_url == old(self).routing_url,
            final(self).schema_source == old(self).schema_source,
            final(self).is_fed_two == old(self).is_fed_two,
    {
        self.schema = schema;
    }

    /// Whether this is a Federation 2 subgraph.
    pub fn is_fed_two(&self) -> (b: bool)
        ensures
            b == self.is_fed_two,
    {
        self.is_fed_two
    }

    /// A copy of this subgraph.
    pub fn copy(&self) -> (r: FullyResolvedSubgraph)
        ensures
            r.name == self.name,
            r.routing_url == self.routing_url,
            r.schema == self.schema,
            r.schema_source@ == self.schema_source@,
            r.is_fed_two == self.is_fed_two,
    {
        FullyResolvedSubgraph {
            name: self.name.clone(),
            routing_url: copy_opt_string(&self.routing_url),
            schema: self.schema.clone(),
            schema_source: self.schema_source.copy(),
            is_fed_two: self.is_fed_two,
        }
    }

    /// The config that describes this subgraph: its routing URL, and its SDL written inline.
    pub fn into_subgraph_config(self) -> (r: SubgraphConfig)
        ensures
            r.routing_url == self.routing_url,
            r.schema == (SchemaSource::Sdl { sdl: self.schema }),
    {
        SubgraphConfig { routing_url: self.routing_url, schema: SchemaSource::Sdl { sdl: self.schema } }
    }
}

/// A subgraph as a supergraph config gives it.
#[derive(Debug)]
pub struct UnresolvedSubgraph {
    pub name: String,
    pub schema: SchemaSource,
    pub routing_url: Option<String>,
}

/// What `camino::Utf8Path::join` makes of `root` joined with `path`.
pub uninterp spec fn path_join(root: Seq<char>, path: Seq<char>) -> Seq<char>;

/// Calls `camino::Utf8Path::join`. Claims only that the result is `path_join` of the two paths:
/// the crate's rules for joining are left to it.
#[verifier::external_body]
pub(crate) fn join_paths(root: &str, path: &str) -> (r: String)
    ensures
        r@ == path_join(root@, path@),
{
    camino::Utf8Path::new(root).join(path).into_string()
}

impl UnresolvedSubgraph {
    /// The unresolved subgraph named `name` with the given config.
    pub fn new(name: String, config: SubgraphConfig) -> (r: UnresolvedSubgraph)
        ensures
            r.name == name,
            r.schema == config.schema,
            r.routing_url == config.routing_url,
    {
        UnresolvedSubgraph { name, schema: config.schema, routing_url: config.routing_url }
    }

    /// The path of a schema file relative to `root`, made canonical. `canonicalized` is what
    /// canonicalizing the joined path on the file system gave: the canonical path, or the text of
    /// the error.
    pub fn resolve_file_path(
        &self,
        root: &String,
        path: &String,
        canonicalized: Result<String, String>,
    ) -> (r: Result<String, ResolveSubgraphError>)
        ensures
            match canonicalized {
                Ok(c) => r == Ok::<String, ResolveSubgraphError>(c),
                Err(e) => r matches Err(ResolveSubgraphError::FileNotFound {
                    subgraph_name,
                    supergraph_config_path,
                    path: p,
                    joined_path,
                    source,
                }) && subgraph_name@ == self.name@ && supergraph_config_path@ == root@ && p@ == path@
                    && joined_path@ == path_join(root@, path@) && source == e,
            },
    {
        match canonicalized {
            Ok(c) => Ok(c),
            Err(e) => Err(
                ResolveSubgraphError::FileNotFound {
                    subgraph_name: self.name.clone(),
                    supergraph_config_path: root.clone(),
                    path: path.clone(),
                    joined_path: join_paths(root.as_str(), path.as_str()),
                    source: e,
                },
            ),
        }
    }
}

/// A subgraph whose schema file path, if it has one, is canonical and known to exist.
#[derive(Debug)]
pub struct LazilyResolvedSubgraph {
    pub name: String,
    pub routing_url: Option<String>,
    pub schema: SchemaSource,
}

/// The path, relative to which directory, a subgraph's schema file must be canonicalized
/// before it can be lazily resolved; `None` when its schema does not come from a file.
pub open spec fn file_to_canonicalize(root: Seq<char>, schema: SchemaSourceView) -> Option<Seq<char>> {
    match schema {
        SchemaSourceView::File { file } => Some(path_join(root, file)),
        _ => None,
    }
}

/// The path the file system is asked to canonicalize before `config` can be lazily resolved
/// against `root`, if its schema comes from a file.
pub fn path_to_canonicalize(root: &String, config: &SubgraphConfig) -> (r: Option<String>)
    ensures
        opt_string_view(&r) == file_to_canonicalize(root@, config.schema@),
{
    match &config.schema {
        SchemaSource::File { file } => Some(join_paths(root.as_str(), file.as_str())),
        _ => None,
    }
}

/// `outcome` is what lazily resolving the subgraph `name` with config `config` against the
/// directory `root` gives, when canonicalizing its schema file's path gave `canonicalized`: a
/// schema file's path becomes the canonical one, or the resolution fails with `FileNotFound`;
/// any other schema source is kept as it is.
pub open spec fn lazily_resolved_as(
    root: Seq<char>,
    name: Seq<char>,
    config: SubgraphConfigView,
    canonicalized: Option<Result<String, String>>,
    outcome: Result<LazilyResolvedSubgraph, ResolveSubgraphError>,
) -> bool {
    match config.schema {
        SchemaSourceView::File { file } => match canonicalized {
            Some(Ok(c)) => outcome matches Ok(l) && l.name@ == name && opt_string_view(&l.routing_url)
                == config.routing_url && l.schema@ == (SchemaSourceView::File { file: c@ }),
            Some(Err(e)) => outcome matches Err(ResolveSubgraphError::FileNotFound {
                subgraph_name,
                supergraph_config_path,
                path,
                joined_path,
                source,
            }) && subgraph_name@ == name && supergraph_config_path@ == root && path@ == file
                && joined_path@ == path_join(root, file) && source == e,
            None => false,
        },
        _ => outcome matches Ok(l) && l.name@ == name && opt_string_view(&l.routing_url) == config.routing_url
            && l.schema@ == config.schema,
    }
}

impl LazilyResolvedSubgraph {
    /// Resolves the subgraph `name` with config `config` lazily: a schema file's path becomes the
    /// canonical one, or the resolution fails with `FileNotFound`; any other schema source is
    /// kept as it is. `canonicalized` is what canonicalizing the path given by
    /// [`path_to_canonicalize`] gave, for a subgraph whose schema comes from a file.
    pub fn resolve(
        root: &String,
        name: String,
        config: SubgraphConfig,
        canonicalized: Option<Result<String, String>>,
    ) -> (r: Result<LazilyResolvedSubgraph, ResolveSubgraphError>)
        requires
            config.schema is File ==> canonicalized is Some,
        ensures
            lazily_resolved_as(root@, name@, config@, canonicalized, r),
    {
        let SubgraphConfig { routing_url, schema } = config;
        match schema {
            SchemaSource::File { file } => {
                let unresolved = UnresolvedSubgraph {
                    name,
                    schema: SchemaSource::File { file: file.clone() },
                    routing_url,
                };
                let canonical = match canonicalized {
                    Some(c) => c,
                    None => return Err(ResolveSubgraphError::SupergraphConfigMissing),
                };
                let file = unresolved.resolve_file_path(root, &file, canonical)?;
                let UnresolvedSubgraph { name, routing_url, .. } = unresolved;
                Ok(LazilyResolvedSubgraph { name, routing_url, schema: SchemaSource::File { file } })
            },
            schema => Ok(LazilyResolvedSubgraph { name, routing_url, schema }),
        }
    }

    /// The config that describes this subgraph.
    pub fn into_subgraph_config(self) -> (r: SubgraphConfig)
        ensures
            r.routing_url == self.routing_url,
            r.schema == self.schema,
    {
        SubgraphConfig { routing_url: self.routing_url, schema: self.schema }
    }
}

} // verus!

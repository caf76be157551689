//! Assembles the supergraph config a session runs on, one stage after another: the subgraphs
//! of a graph in the registry, then those of a local supergraph config over them, then a default
//! subgraph where there is none, and at last the resolution of every subgraph.
use vstd::prelude::*;

use crate::config::{
    copy_subgraph_configs, subgraph_config_map_view, SchemaSource, SchemaSourceView, SubgraphConfig,
    SubgraphConfigView, SupergraphConfigYaml,
};
use crate::federation::{FederationVersionResolver, FromSubgraphs, FromSupergraphConfig};
use crate::resolution::SchemaFetch;
use crate::name_map::NameMap;
use crate::subgraph::{FullyResolvedSubgraph, ResolveSubgraphError};
use crate::supergraph::{
    fetches_fit, lemma_split_fed_two, lemma_split_same_configs, some_resolves_fed_two, splits_fully,
    FullyResolvedSupergraphConfig, LazilyResolvedSupergraphConfig, ResolveSupergraphConfigError,
    UnresolvedSupergraphConfig,
};
use crate::text::{copy_opt_string, opt_string_view};
use crate::version::FederationVersion;

verus! {

/// The first stage: subgraphs may be loaded from the graph registry.
#[derive(Debug)]
pub struct LoadRemoteSubgraphs {
    pub federation_version_resolver: FederationVersionResolver<FromSupergraphConfig>,
}

/// The second stage: a local supergraph config may be laid over the remote subgraphs.
#[derive(Debug)]
pub struct LoadSupergraphConfig {
    pub federation_version_resolver: FederationVersionResolver<FromSupergraphConfig>,
    pub subgraphs: NameMap<SubgraphConfig>,
}

/// The third stage: a default subgraph may be defined where there is no subgraph yet.
#[derive(Debug)]
pub struct DefineDefaultSubgraph {
    pub origin_path: Option<String>,
    pub federation_version_resolver: FederationVersionResolver<FromSubgraphs>,
    pub subgraphs: NameMap<SubgraphConfig>,
}

/// The last stage: the subgraphs are ready to be resolved, lazily or fully.
#[derive(Debug)]
pub struct ResolveSubgraphs {
    pub origin_path: Option<String>,
    pub federation_version_resolver: FederationVersionResolver<FromSubgraphs>,
    pub subgraphs: NameMap<SubgraphConfig>,
}

/// Assembles a supergraph config in stages, the type of `State` telling which comes next.
#[derive(Debug)]
pub struct SupergraphConfigResolver<State> {
    pub state: State,
}

/// Errors that may occur when loading remote subgraphs.
#[derive(Debug)]
pub enum LoadRemoteSubgraphsError {
    /// Fetching the subgraphs failed; the text of the error.
    FetchRemoteSubgraphsError(String),
}

/// Errors that may occur when loading a local supergraph config; each holds the text of the
/// error that caused it.
#[derive(Debug)]
pub enum LoadSupergraphConfigError {
    /// The supergraph config could not be parsed.
    SupergraphConfig(String),
    /// The file or standard input could not be read.
    ReadFileDescriptor(String),
    /// The supergraph config is not YAML.
    DeserializationError(String),
    /// The variables in the supergraph config could not be expanded.
    ExpansionError(String),
}

/// Where a supergraph config is read from.
#[derive(Debug)]
pub enum FileDescriptorType {
    /// A file, by path.
    File(String),
    /// Standard input.
    Stdin,
}

impl SupergraphConfigResolver<LoadRemoteSubgraphs> {
    /// A resolver that targets the federation version the user gave.
    pub fn new(federation_version: FederationVersion) -> (r: SupergraphConfigResolver<LoadRemoteSubgraphs>)
        ensures
            r.state.federation_version_resolver.federation_version == Some(federation_version),
    {
        SupergraphConfigResolver {
            state: LoadRemoteSubgraphs {
                federation_version_resolver: FederationVersionResolver::<FromSupergraphConfig>::new(
                    federation_version,
                ),
            },
        }
    }

    /// Takes the subgraphs of the graph in the registry: `fetched` is `None` where no graph ref
    /// was given, else the outcome of fetching the graph's subgraphs.
    pub fn load_remote_subgraphs(
        self,
        fetched: Option<Result<NameMap<SubgraphConfig>, String>>,
    ) -> (r: Result<SupergraphConfigResolver<LoadSupergraphConfig>, LoadRemoteSubgraphsError>)
        ensures
            match fetched {
                None => r matches Ok(s) && s.state.subgraphs.keys().len() == 0
                    && s.state.federation_version_resolver == self.state.federation_version_resolver,
                Some(Ok(m)) => r matches Ok(s) && s.state.subgraphs == m
                    && s.state.federation_version_resolver == self.state.federation_version_resolver,
                Some(Err(e)) => r matches Err(LoadRemoteSubgraphsError::FetchRemoteSubgraphsError(t)) && t == e,
            },
    {
        let subgraphs = match fetched {
            None => NameMap::new(),
            Some(Ok(m)) => m,
            Some(Err(e)) => return Err(LoadRemoteSubgraphsError::FetchRemoteSubgraphsError(e)),
        };
        Ok(
            SupergraphConfigResolver {
                state: LoadSupergraphConfig {
                    federation_version_resolver: self.state.federation_version_resolver,
                    subgraphs,
                },
            },
        )
    }
}

impl Default for SupergraphConfigResolver<LoadRemoteSubgraphs> {
    fn default() -> (r: Self)
        ensures
            r.state.federation_version_resolver.federation_version is None,
    {
        SupergraphConfigResolver {
            state: LoadRemoteSubgraphs { federation_version_resolver: FederationVersionResolver::default() },
        }
    }
}

/// The subgraph `name` once a local config is laid over remote subgraphs: the local config
/// where there is one, keeping the remote routing URL where the local one gives none.
pub open spec fn merged_subgraph(
    remote: Map<Seq<char>, SubgraphConfigView>,
    local: Map<Seq<char>, SubgraphConfigView>,
    name: Seq<char>,
) -> SubgraphConfigView {
    if local.dom().contains(name) {
        SubgraphConfigView {
            routing_url: match local[name].routing_url {
                Some(u) => Some(u),
                None => if remote.dom().contains(name) {
                    remote[name].routing_url
                } else {
                    None
                },
            },
            schema: local[name].schema,
        }
    } else {
        remote[name]
    }
}

/// The subgraphs once a local config is laid over remote subgraphs.
pub open spec fn merged_subgraphs(
    remote: Map<Seq<char>, SubgraphConfigView>,
    local: Map<Seq<char>, SubgraphConfigView>,
) -> Map<Seq<char>, SubgraphConfigView> {
    Map::new(
        |k: Seq<char>| remote.dom().contains(k) || local.dom().contains(k),
        |k: Seq<char>| merged_subgraph(remote, local, k),
    )
}

/// The supergraph config read from a file descriptor. `read` is the outcome of reading its text
/// as YAML and expanding the references to environment variables in it (outer; see
/// [`crate::expansion::expand_text`]), then of parsing the result as a supergraph config
/// (inner): a config that does not parse gives way to an empty one.
pub fn get_supergraph_config(
    read: Result<Result<SupergraphConfigYaml, String>, LoadSupergraphConfigError>,
) -> (r: Result<SupergraphConfigYaml, LoadSupergraphConfigError>)
    ensures
        match read {
            Err(e) => r == Err::<SupergraphConfigYaml, LoadSupergraphConfigError>(e),
            Ok(Ok(c)) => r == Ok::<SupergraphConfigYaml, LoadSupergraphConfigError>(c),
            Ok(Err(_)) => r matches Ok(c) && c.subgraphs.keys().len() == 0 && c.federation_version is None,
        },
{
    match read {
        Err(e) => Err(e),
        Ok(Ok(c)) => Ok(c),
        Ok(Err(_)) => Ok(SupergraphConfigYaml::empty()),
    }
}

impl SupergraphConfigResolver<LoadSupergraphConfig> {
    /// Lays the supergraph config of a file descriptor, if one was given, over the remote
    /// subgraphs. `loaded` is `None` where no file descriptor was given, else the file
    /// descriptor with what [`get_supergraph_config`] takes for it. A local subgraph replaces
    /// the remote one of its name, keeping the remote routing URL where it gives none; the
    /// config's federation version comes after the one the user gave.
    pub fn load_from_file_descriptor(
        self,
        loaded: Option<(FileDescriptorType, Result<Result<SupergraphConfigYaml, String>, LoadSupergraphConfigError>)>,
    ) -> (r: Result<SupergraphConfigResolver<DefineDefaultSubgraph>, LoadSupergraphConfigError>)
        ensures
            match loaded {
                None => r matches Ok(s) && {
                    &&& s.state.origin_path is None
                    &&& s.state.federation_version_resolver.federation_version
                        == self.state.federation_version_resolver.federation_version
                    &&& s.state.subgraphs == self.state.subgraphs
                },
                Some((fd, Err(e))) => r == Err::<SupergraphConfigResolver<DefineDefaultSubgraph>, LoadSupergraphConfigError>(e),
                Some((fd, Ok(parsed))) => r matches Ok(s) && {
                    let local = match parsed {
                        Ok(c) => Some(c),
                        Err(_) => None,
                    };
                    &&& s.state.origin_path == match fd {
                        FileDescriptorType::File(p) => Some(p),
                        FileDescriptorType::Stdin => None::<String>,
                    }
                    &&& s.state.federation_version_resolver.federation_version == match self.state.federation_version_resolver.federation_version {
                        Some(v) => Some(v),
                        None => match local {
                            Some(c) => c.federation_version,
                            None => None,
                        },
                    }
                    &&& subgraph_config_map_view(&s.state.subgraphs) == match local {
                        Some(c) => merged_subgraphs(
                            subgraph_config_map_view(&self.state.subgraphs),
                            subgraph_config_map_view(&c.subgraphs),
                        ),
                        None => subgraph_config_map_view(&self.state.subgraphs),
                    }
                },
            },
    {
        let (file_descriptor_type, read) = match loaded {
            None => {
                return Ok(
                    SupergraphConfigResolver {
                        state: DefineDefaultSubgraph {
                            origin_path: None,
                            federation_version_resolver: self.state.federation_version_resolver.from_supergraph_config(
                                None,
                            ),
                            subgraphs: self.state.subgraphs,
                        },
                    },
                );
            },
            Some(l) => l,
        };
        let supergraph_config = get_supergraph_config(read)?;
        let origin_path = match file_descriptor_type {
            FileDescriptorType::File(file) => Some(file),
            FileDescriptorType::Stdin => None,
        };
        let federation_version_resolver = self.state.federation_version_resolver.from_supergraph_config(
            Some(&supergraph_config),
        );
        let ghost remote = subgraph_config_map_view(&self.state.subgraphs);
        let ghost local = subgraph_config_map_view(&supergraph_config.subgraphs);
        let ghost source = supergraph_config.subgraphs;
        proof {
            use_type_invariant(&supergraph_config.subgraphs);
        }
        let mut merged = self.state.subgraphs;
        let mut entries = supergraph_config.subgraphs.into_entries();
        let ghost total = entries@.len();
        while entries.len() > 0
            invariant
                source.is_sorted(),
                total == source.keys().len(),
                entries@.len() <= total,
                local == subgraph_config_map_view(&source),
                crate::name_map::entry_names(entries@) == source.keys().take(entries@.len() as int),
                crate::name_map::entry_values(entries@) == source.values().take(entries@.len() as int),
                forall|k: Seq<char>| #[trigger] merged.key_set().contains(k) == (remote.dom().contains(k)
                    || (source.keys().contains(k) && source.keys().index_of(k) >= entries@.len())),
                forall|k: Seq<char>| #[trigger] merged.key_set().contains(k) ==> merged.spec_get(k).unwrap()@
                    == if source.keys().contains(k) && source.keys().index_of(k) >= entries@.len() {
                    merged_subgraph(remote, local, k)
                } else {
                    remote[k]
                },
            decreases entries@.len(),
        {
            let ghost m = entries@.len() - 1;
            let ghost pre = entries@;
            let ghost before = merged;
            let (name, subgraph_config) = entries.pop().unwrap();
            proof {
                assert(crate::name_map::entry_names(pre)[m] == source.keys().take(m + 1)[m]);
                assert(crate::name_map::entry_values(pre)[m] == source.values().take(m + 1)[m]);
                source.lemma_get_at(m);
                assert(source.keys()[m] == name@);
                assert(source.values()[m] == subgraph_config);
                assert(crate::name_map::entry_names(entries@) =~= source.keys().take(m));
                assert(crate::name_map::entry_values(entries@) =~= source.values().take(m));
                assert(local.dom().contains(name@));
                assert(local[name@] == subgraph_config@);
            }
            let SubgraphConfig { routing_url, schema } = subgraph_config;
            proof {
                assert(source.keys().index_of(name@) == m);
                assert(before.key_set().contains(name@) == remote.dom().contains(name@));
                if before.key_set().contains(name@) {
                    assert(before.spec_get(name@).unwrap()@ == remote[name@]);
                }
            }
            let routing_url = match routing_url {
                Some(u) => Some(u),
                None => match merged.get(&name) {
                    Some(remote_config) => copy_opt_string(&remote_config.routing_url),
                    None => None,
                },
            };
            let ghost key = name@;
            proof {
                assert(opt_string_view(&routing_url) == merged_subgraph(remote, local, key).routing_url);
            }
            merged.insert(name, SubgraphConfig { routing_url, schema });
            proof {
                assert forall|k: Seq<char>| #[trigger] merged.key_set().contains(k) == (remote.dom().contains(k)
                    || (source.keys().contains(k) && source.keys().index_of(k) >= entries@.len())) by {
                    assert(before.key_set().contains(k) == (remote.dom().contains(k) || (source.keys().contains(k)
                        && source.keys().index_of(k) >= m + 1)));
                    if source.keys().contains(k) {
                        source.lemma_get_at(source.keys().index_of(k));
                    }
                }
                assert forall|k: Seq<char>| #[trigger] merged.key_set().contains(k) implies merged.spec_get(k).unwrap()@
                    == if source.keys().contains(k) && source.keys().index_of(k) >= entries@.len() {
                    merged_subgraph(remote, local, k)
                } else {
                    remote[k]
                } by {
                    if source.keys().contains(k) {
                        source.lemma_get_at(source.keys().index_of(k));
                    }
                    if k != key {
                        assert(before.key_set().contains(k));
                    }
                }
            }
        }
        proof {
            assert forall|k: Seq<char>| #[trigger] merged.key_set().contains(k) == merged_subgraphs(remote, local).dom().contains(k) by {
                if local.dom().contains(k) {
                    assert(source.keys().contains(k));
                }
            }
            assert forall|k: Seq<char>| #[trigger] merged.key_set().contains(k) implies merged.spec_get(k).unwrap()@
                == merged_subgraphs(remote, local)[k] by {
                if source.keys().contains(k) {
                    assert(local.dom().contains(k));
                }
            }
            assert(subgraph_config_map_view(&merged) =~= merged_subgraphs(remote, local));
        }
        Ok(
            SupergraphConfigResolver {
                state: DefineDefaultSubgraph { origin_path, federation_version_resolver, subgraphs: merged },
            },
        )
    }
}

/// Asks the user for the name and URL of a subgraph.
pub trait Prompt {
    /// Asks for the name of the subgraph.
    fn prompt_for_subgraph_name(&self) -> Result<String, ResolveSubgraphError>;

    /// Asks for the URL of the subgraph.
    fn prompt_for_subgraph_url(&self) -> Result<String, ResolveSubgraphError>;
}

/// How a default subgraph is defined: by asking the user, or from the command line.
#[derive(Debug)]
pub enum DefaultSubgraphDefinition<P: Prompt> {
    /// Ask the user.
    Prompt(P),
    /// From the command line: the name and URL of the subgraph, and optionally its schema file.
    Args { name: String, url: String, schema_path: Option<String> },
}

impl<P: Prompt> DefaultSubgraphDefinition<P> {
    /// The name of the subgraph.
    pub fn name(&self) -> (r: Result<String, ResolveSubgraphError>)
        ensures
            *self matches DefaultSubgraphDefinition::Args { name, .. } ==> r == Ok::<String, ResolveSubgraphError>(
                name,
            ),
    {
        match self {
            DefaultSubgraphDefinition::Prompt(prompt) => prompt.prompt_for_subgraph_name(),
            DefaultSubgraphDefinition::Args { name, .. } => Ok(name.clone()),
        }
    }

    /// The URL of the subgraph.
    pub fn url(&self) -> (r: Result<String, ResolveSubgraphError>)
        ensures
            *self matches DefaultSubgraphDefinition::Args { url, .. } ==> r == Ok::<String, ResolveSubgraphError>(
                url,
            ),
    {
        match self {
            DefaultSubgraphDefinition::Prompt(prompt) => prompt.prompt_for_subgraph_url(),
            DefaultSubgraphDefinition::Args { url, .. } => Ok(url.clone()),
        }
    }

    /// The path of the subgraph's schema file, if one was given.
    pub fn schema_path(&self) -> (r: Option<String>)
        ensures
            r == match *self {
                DefaultSubgraphDefinition::Prompt(_) => None,
                DefaultSubgraphDefinition::Args { schema_path, .. } => schema_path,
            },
    {
        match self {
            DefaultSubgraphDefinition::Prompt(_) => None,
            DefaultSubgraphDefinition::Args { schema_path, .. } => copy_opt_string(schema_path),
        }
    }
}

/// The config of a default subgraph at `url`: routed to `url`, its schema read from
/// `schema_path` where one is given, else introspected at `url`.
pub open spec fn default_subgraph_config(url: Seq<char>, schema_path: Option<Seq<char>>) -> SubgraphConfigView {
    SubgraphConfigView {
        routing_url: Some(url),
        schema: match schema_path {
            Some(p) => SchemaSourceView::File { file: p },
            None => SchemaSourceView::SubgraphIntrospection { subgraph_url: url, introspection_headers: None },
        },
    }
}

impl SupergraphConfigResolver<DefineDefaultSubgraph> {
    /// Defines a default subgraph where there is no subgraph yet, asking `default_subgraph` for
    /// its URL, then its name; where there are subgraphs, leaves them as they are.
    pub fn define_default_subgraph_if_empty<P: Prompt>(
        self,
        default_subgraph: DefaultSubgraphDefinition<P>,
    ) -> (r: Result<SupergraphConfigResolver<ResolveSubgraphs>, ResolveSubgraphError>)
        ensures
            self.state.subgraphs.keys().len() > 0 ==> (r matches Ok(s) && s.state.subgraphs == self.state.subgraphs
                && s.state.origin_path == self.state.origin_path && s.state.federation_version_resolver
                == self.state.federation_version_resolver),
            r matches Ok(s) ==> s.state.origin_path == self.state.origin_path
                && s.state.federation_version_resolver == self.state.federation_version_resolver,
            self.state.subgraphs.keys().len() == 0 ==> match default_subgraph {
                DefaultSubgraphDefinition::Args { name, url, schema_path } => r matches Ok(s) && {
                    &&& s.state.subgraphs.key_set() == set![name@]
                    &&& s.state.subgraphs.spec_get(name@).unwrap()@ == default_subgraph_config(
                        url@,
                        opt_string_view(&schema_path),
                    )
                },
                DefaultSubgraphDefinition::Prompt(_) => r matches Ok(s) ==> (s.state.subgraphs.keys().len() == 1 && {
                    let c = s.state.subgraphs.spec_get(s.state.subgraphs.keys()[0]).unwrap()@;
                    &&& c.routing_url is Some
                    &&& c == default_subgraph_config(c.routing_url.unwrap(), None)
                }),
            },
    {
        if self.state.subgraphs.is_empty() {
            let answers = match default_subgraph.url() {
                Err(e) => Err(e),
                Ok(url) => match default_subgraph.name() {
                    Err(e) => Err(e),
                    Ok(name) => Ok((url, name)),
                },
            };
            let schema_path = default_subgraph.schema_path();
            let ghost given = answers;
            let r = self.define_default_subgraph(answers, schema_path);
            proof {
                if let DefaultSubgraphDefinition::Args { name, url, .. } = default_subgraph {
                    assert(given == Ok::<(String, String), ResolveSubgraphError>((url, name)));
                }
            }
            r
        } else {
            Ok(self.skip_default_subgraph())
        }
    }

    /// Defines a default subgraph where there is no subgraph yet, from `answers`, the URL and
    /// then the name given for it or the error that came first in asking for them, and from
    /// `schema_path`, the path of its schema file where one was given; where there are
    /// subgraphs, leaves them as they are.
    pub fn define_default_subgraph(
        self,
        answers: Result<(String, String), ResolveSubgraphError>,
        schema_path: Option<String>,
    ) -> (r: Result<SupergraphConfigResolver<ResolveSubgraphs>, ResolveSubgraphError>)
        ensures
            self.state.subgraphs.keys().len() > 0 ==> (r matches Ok(s) && s.state.subgraphs == self.state.subgraphs
                && s.state.origin_path == self.state.origin_path && s.state.federation_version_resolver
                == self.state.federation_version_resolver),
            self.state.subgraphs.keys().len() == 0 ==> match answers {
                Err(e) => r == Err::<SupergraphConfigResolver<ResolveSubgraphs>, ResolveSubgraphError>(e),
                Ok((url, name)) => r matches Ok(s) && {
                    &&& s.state.origin_path == self.state.origin_path
                    &&& s.state.federation_version_resolver == self.state.federation_version_resolver
                    &&& s.state.subgraphs.key_set() == set![name@]
                    &&& s.state.subgraphs.keys().len() == 1
                    &&& s.state.subgraphs.keys()[0] == name@
                    &&& s.state.subgraphs.spec_get(name@).unwrap()@ == default_subgraph_config(
                        url@,
                        opt_string_view(&schema_path),
                    )
                },
            },
    {
        if !self.state.subgraphs.is_empty() {
            return Ok(self.skip_default_subgraph());
        }
        let (subgraph_url, subgraph_name) = answers?;
        let DefineDefaultSubgraph { origin_path, federation_version_resolver, subgraphs } = self.state;
        let mut subgraphs = subgraphs;
        let schema = match schema_path {
            Some(path) => SchemaSource::File { file: path },
            None => SchemaSource::SubgraphIntrospection { subgraph_url: subgraph_url.clone(), introspection_headers: None },
        };
        let ghost n = subgraph_name@;
        subgraphs.insert(subgraph_name, SubgraphConfig { routing_url: Some(subgraph_url), schema });
        proof {
            use_type_invariant(&subgraphs);
            assert(subgraphs.key_set() =~= set![n]);
            assert(subgraphs.key_set().contains(n));
            assert(subgraphs.keys().to_set().contains(n));
            assert(subgraphs.keys().contains(n));
            assert(subgraphs.keys().len() == 1);
            assert(subgraphs.keys()[0] == n);
        }
        Ok(
            SupergraphConfigResolver {
                state: ResolveSubgraphs { origin_path, federation_version_resolver, subgraphs },
            },
        )
    }

    /// Leaves the subgraphs as they are, without a default subgraph.
    pub fn skip_default_subgraph(self) -> (r: SupergraphConfigResolver<ResolveSubgraphs>)
        ensures
            r.state.origin_path == self.state.origin_path,
            r.state.federation_version_resolver == self.state.federation_version_resolver,
            r.state.subgraphs == self.state.subgraphs,
    {
        SupergraphConfigResolver {
            state: ResolveSubgraphs {
                origin_path: self.state.origin_path,
                federation_version_resolver: self.state.federation_version_resolver,
                subgraphs: self.state.subgraphs,
            },
        }
    }
}

impl SupergraphConfigResolver<ResolveSubgraphs> {
    /// The unresolved supergraph config these stages assembled, with or without the path it was
    /// read from.
    pub fn unresolved_supergraph_config(&self, with_origin_path: bool) -> (r: UnresolvedSupergraphConfig)
        ensures
            r.origin_path == if with_origin_path {
                self.state.origin_path
            } else {
                None
            },
            r.subgraphs.keys() == self.state.subgraphs.keys(),
            subgraph_config_map_view(&r.subgraphs) == subgraph_config_map_view(&self.state.subgraphs),
            r.federation_version_resolver == Some(self.state.federation_version_resolver),
    {
        UnresolvedSupergraphConfig {
            origin_path: if with_origin_path {
                copy_opt_string(&self.state.origin_path)
            } else {
                None
            },
            subgraphs: copy_subgraph_configs(&self.state.subgraphs),
            federation_version_resolver: Some(self.state.federation_version_resolver.copy()),
        }
    }

    /// Resolves the subgraphs fully relative to the directory `supergraph_config_root`, once the
    /// fetch `fetches` holds for each was done, as [`FullyResolvedSupergraphConfig::resolve`]
    /// does; the config has no origin path. It fails exactly when the user chose a Federation 1
    /// version while some subgraph resolves to an SDL that applies `@link`.
    pub fn fully_resolve_subgraphs(
        &self,
        supergraph_config_root: &String,
        fetches: NameMap<SchemaFetch>,
    ) -> (r: Result<(FullyResolvedSupergraphConfig, NameMap<ResolveSubgraphError>), ResolveSupergraphConfigError>)
        requires
            fetches_fit(self.state.subgraphs, fetches),
        ensures
            r matches Ok((c, errors)) ==> c.origin_path is None,
            r matches Ok((c, errors)) ==> splits_fully(
                supergraph_config_root@,
                self.state.subgraphs,
                fetches,
                c.subgraphs,
                errors,
            ),
            r matches Ok((c, errors)) ==> (self.state.federation_version_resolver.federation_version matches Some(
                v,
            ) ==> c.federation_version == v),
            r matches Ok((c, errors)) ==> (self.state.federation_version_resolver.federation_version is None
                ==> c.federation_version == FederationVersion::LatestFedTwo),
            r is Err ==> (r matches Err(ResolveSupergraphConfigError::FederationVersionMismatch(m))
                && self.state.federation_version_resolver.federation_version == Some(m.specified_federation_version)
                && m.specified_federation_version@.is_fed_one()),
            r is Err <==> (self.state.federation_version_resolver.federation_version matches Some(v)
                && v@.is_fed_one() && some_resolves_fed_two(supergraph_config_root@, self.state.subgraphs, fetches)),
    {
        let unresolved = self.unresolved_supergraph_config(false);
        let ghost root = supergraph_config_root@;
        let ghost given = fetches;
        proof {
            lemma_split_same_configs(
                root,
                self.state.subgraphs,
                unresolved.subgraphs,
                fetches,
                vstd::pervasive::arbitrary(),
                vstd::pervasive::arbitrary(),
            );
        }
        let ghost configs = unresolved.subgraphs;
        let r = FullyResolvedSupergraphConfig::resolve(supergraph_config_root, unresolved, fetches);
        match &r {
            Ok((c, errors)) => {
                proof {
                    use_type_invariant(&c.subgraphs);
                    lemma_split_same_configs(root, self.state.subgraphs, configs, given, c.subgraphs, *errors);
                    lemma_split_fed_two(root, self.state.subgraphs, given, c.subgraphs, *errors);
                }
            },
            Err(_) => {
                proof {
                    let (s, e) = choose|s: NameMap<FullyResolvedSubgraph>, e: NameMap<ResolveSubgraphError>| {
                        &&& s.is_sorted()
                        &&& splits_fully(root, configs, given, s, e)
                        &&& crate::federation::resolved_federation_version(
                            crate::config::opt_federation_version_view(
                                &self.state.federation_version_resolver.federation_version,
                            ),
                            crate::federation::fed_two_names(s.keys(), s.values()),
                        ) is None
                        &&& true
                    };
                    lemma_split_same_configs(root, self.state.subgraphs, configs, given, s, e);
                    lemma_split_fed_two(root, self.state.subgraphs, given, s, e);
                }
            },
        }
        r
    }

    /// Resolves the subgraphs lazily against the directory `root`, as
    /// [`LazilyResolvedSupergraphConfig::resolve`] does, keeping the path the config was read
    /// from.
    pub fn lazily_resolve_subgraphs(
        &self,
        root: &String,
        canonicalized: &NameMap<Result<String, String>>,
    ) -> (r: (LazilyResolvedSupergraphConfig, NameMap<ResolveSubgraphError>))
        requires
            forall|k: Seq<char>| #[trigger] self.state.subgraphs.spec_get(k) matches Some(c) && c.schema is File
                ==> canonicalized.key_set().contains(k),
        ensures
            r.0.origin_path == self.state.origin_path,
            r.0.federation_version == self.state.federation_version_resolver.federation_version,
            forall|k: Seq<char>| #[trigger] self.state.subgraphs.spec_get(k) is None ==> r.0.subgraphs.spec_get(k) is None
                && r.1.spec_get(k) is None,
            forall|k: Seq<char>| #[trigger] self.state.subgraphs.spec_get(k) matches Some(c) ==> crate::supergraph::split_as(
                root@,
                k,
                c@,
                canonicalized.spec_get(k),
                r.0.subgraphs.spec_get(k),
                r.1.spec_get(k),
            ),
    {
        let unresolved = self.unresolved_supergraph_config(true);
        proof {
            assert forall|k: Seq<char>| #[trigger] unresolved.subgraphs.spec_get(k) matches Some(c) && c.schema is File
                implies canonicalized.key_set().contains(k) by {
                assert(subgraph_config_map_view(&unresolved.subgraphs).dom().contains(k));
                assert(self.state.subgraphs.key_set().contains(k));
                assert(subgraph_config_map_view(&self.state.subgraphs)[k] == subgraph_config_map_view(
                    &unresolved.subgraphs,
                )[k]);
            }
        }
        let r = LazilyResolvedSupergraphConfig::resolve(root, unresolved, canonicalized);
        proof {
            assert forall|k: Seq<char>| #[trigger] self.state.subgraphs.spec_get(k) is None implies r.0.subgraphs.spec_get(k) is None
                && r.1.spec_get(k) is None by {
                assert(unresolved.subgraphs.keys() == self.state.subgraphs.keys());
                assert(unresolved.subgraphs.spec_get(k) is None);
            }
            assert forall|k: Seq<char>| #[trigger] self.state.subgraphs.spec_get(k) is Some implies crate::supergraph::split_as(
                root@,
                k,
                self.state.subgraphs.spec_get(k).unwrap()@,
                canonicalized.spec_get(k),
                r.0.subgraphs.spec_get(k),
                r.1.spec_get(k),
            ) by {
                assert(subgraph_config_map_view(&self.state.subgraphs).dom().contains(k));
                assert(subgraph_config_map_view(&self.state.subgraphs)[k] == subgraph_config_map_view(
                    &unresolved.subgraphs,
                )[k]);
                assert(unresolved.subgraphs.spec_get(k) is Some);
            }
        }
        r
    }
}

} // verus!

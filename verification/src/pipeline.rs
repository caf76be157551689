//! The composition pipeline, one stage after another: assemble the supergraph config, settle the
//! federation version, then install the `supergraph` plugin for it.
use vstd::prelude::*;

use crate::config::{subgraph_config_map_view, SubgraphConfig, SubgraphConfigView, SupergraphConfigYaml};
use crate::name_map::NameMap;
use crate::resolver::{
    default_subgraph_config, merged_subgraphs, DefaultSubgraphDefinition, FileDescriptorType,
    LoadRemoteSubgraphsError, LoadSupergraphConfigError, Prompt, ResolveSubgraphs, SupergraphConfigResolver,
};
use crate::text::opt_string_view;
use crate::subgraph::ResolveSubgraphError;
use crate::supergraph::ResolveSupergraphConfigError;
use crate::resolution::SchemaFetch;
use crate::supergraph::{fetches_fit, some_resolves_fed_two, splits_fully, FullyResolvedSupergraphConfig};
use crate::binary::SupergraphBinary;
use crate::composition::{CompositionError, PluginProvenance};
use crate::version::FederationVersion;

verus! {

/// Federation 1 is no longer supported; the version asked for.
#[derive(Debug)]
pub struct FederationOneUnsupported {
    pub federation_version: FederationVersion,
}

/// Refuses a Federation 1 version.
pub fn reject_federation_one(federation_version: &FederationVersion) -> (r: Result<(), FederationOneUnsupported>)
    ensures
        federation_version@.is_fed_one() ==> (r matches Err(e) && e.federation_version == *federation_version),
        !federation_version@.is_fed_one() ==> r is Ok,
{
    if federation_version.is_fed_one() {
        Err(FederationOneUnsupported { federation_version: federation_version.copy() })
    } else {
        Ok(())
    }
}

/// Errors that may occur along the composition pipeline; those from outside the library hold
/// the text of the error.
#[derive(Debug)]
pub enum CompositionPipelineError {
    LoadRemoteSubgraphs(LoadRemoteSubgraphsError),
    LoadSupergraphConfig(LoadSupergraphConfigError),
    ResolveSupergraphConfig(ResolveSupergraphConfigError),
    Io(String),
    SerdeYaml(String),
    WriteFile { path: String, err: String },
    InstallSupergraph(crate::binary::InstallSupergraphError),
    ResolveSubgraphs(NameMap<ResolveSubgraphError>),
    ResolveSubgraphFromPrompt(ResolveSubgraphError),
    FederationOneUnsupported(FederationOneUnsupported),
}

/// The first stage: nothing is loaded yet.
#[derive(Debug)]
pub struct Init;

/// The second stage: the supergraph config is assembled; its federation version is next.
#[derive(Debug)]
pub struct ResolveFederationVersion {
    pub resolver: SupergraphConfigResolver<ResolveSubgraphs>,
    pub supergraph_root: String,
    pub supergraph_yaml: Option<FileDescriptorType>,
}

/// The third stage: the federation version is settled; the plugin for it is next.
#[derive(Debug)]
pub struct InstallSupergraph {
    pub resolver: SupergraphConfigResolver<ResolveSubgraphs>,
    pub supergraph_root: String,
    pub federation_version: FederationVersion,
}

/// The last stage: the plugin is installed, or failed to install; composition is next.
#[derive(Debug)]
pub struct Run {
    pub resolver: SupergraphConfigResolver<ResolveSubgraphs>,
    pub supergraph_root: String,
    pub supergraph_binary: Result<SupergraphBinary, crate::binary::InstallSupergraphError>,
}

/// The composition pipeline, the type of `State` telling which stage comes next.
#[derive(Debug)]
pub struct CompositionPipeline<State> {
    pub state: State,
}

impl Default for CompositionPipeline<Init> {
    fn default() -> (r: Self)
        ensures
            r.state == Init,
    {
        CompositionPipeline { state: Init }
    }
}

/// A copy of a file descriptor.
pub fn copy_file_descriptor(fd: &FileDescriptorType) -> (r: FileDescriptorType)
    ensures
        r == *fd,
{
    match fd {
        FileDescriptorType::File(p) => FileDescriptorType::File(p.clone()),
        FileDescriptorType::Stdin => FileDescriptorType::Stdin,
    }
}

/// The subgraphs the pipeline starts from: the remote ones, where they were fetched, with the
/// local config, where it read and parsed, laid over them.
pub open spec fn loaded_subgraphs(
    remote_subgraphs: Option<Result<NameMap<SubgraphConfig>, String>>,
    supergraph_yaml: Option<(FileDescriptorType, Result<Result<SupergraphConfigYaml, String>, LoadSupergraphConfigError>)>,
) -> Map<Seq<char>, SubgraphConfigView> {
    let remote = match remote_subgraphs {
        Some(Ok(m)) => subgraph_config_map_view(&m),
        _ => Map::empty(),
    };
    match supergraph_yaml {
        Some((_, Ok(Ok(c)))) => merged_subgraphs(remote, subgraph_config_map_view(&c.subgraphs)),
        _ => remote,
    }
}

/// A map of subgraph configs has names exactly when its value does.
proof fn lemma_config_map_empty(m: NameMap<SubgraphConfig>)
    requires
        m.is_sorted(),
    ensures
        (m.keys().len() == 0) == (subgraph_config_map_view(&m).dom().len() == 0),
        m.keys().len() == 0 ==> subgraph_config_map_view(&m) == Map::<Seq<char>, SubgraphConfigView>::empty(),
{
    let v = subgraph_config_map_view(&m);
    if m.keys().len() == 0 {
        assert(v =~= Map::<Seq<char>, SubgraphConfigView>::empty());
    } else {
        assert(m.key_set().contains(m.keys()[0]));
        assert(v.dom().contains(m.keys()[0]));
        lemma_finite_config_map(m);
    }
}

/// The value of a map of subgraph configs has finitely many names.
proof fn lemma_finite_config_map(m: NameMap<SubgraphConfig>)
    ensures
        subgraph_config_map_view(&m).dom().finite(),
{
    assert(subgraph_config_map_view(&m).dom() =~= m.keys().to_set());
    vstd::seq_lib::seq_to_set_is_finite(m.keys());
}

impl CompositionPipeline<Init> {
    /// Assembles the supergraph config: the remote subgraphs `remote_subgraphs` gives (see
    /// [`SupergraphConfigResolver::load_remote_subgraphs`]), the local config `supergraph_yaml`
    /// gives over them (see [`SupergraphConfigResolver::load_from_file_descriptor`]), and a
    /// default subgraph where there is none and `default_subgraph` defines one. The config's
    /// paths are resolved against `supergraph_root`.
    pub fn init<P: Prompt>(
        self,
        remote_subgraphs: Option<Result<NameMap<SubgraphConfig>, String>>,
        supergraph_yaml: Option<(FileDescriptorType, Result<Result<SupergraphConfigYaml, String>, LoadSupergraphConfigError>)>,
        supergraph_root: String,
        default_subgraph: Option<DefaultSubgraphDefinition<P>>,
    ) -> (r: Result<CompositionPipeline<ResolveFederationVersion>, CompositionPipelineError>)
        ensures
            remote_subgraphs matches Some(Err(e)) ==> (r matches Err(
                CompositionPipelineError::LoadRemoteSubgraphs(LoadRemoteSubgraphsError::FetchRemoteSubgraphsError(t)),
            ) && t == e),
            !(remote_subgraphs matches Some(Err(_))) ==> (supergraph_yaml matches Some((_, Err(e))) ==> r == Err::<
                CompositionPipeline<ResolveFederationVersion>,
                CompositionPipelineError,
            >(CompositionPipelineError::LoadSupergraphConfig(e))),
            r matches Ok(p) ==> {
                &&& p.state.supergraph_root == supergraph_root
                &&& p.state.supergraph_yaml == match supergraph_yaml {
                    Some((fd, _)) => Some(fd),
                    None => None::<FileDescriptorType>,
                }
                &&& p.state.resolver.state.federation_version_resolver.federation_version == match supergraph_yaml {
                    Some((_, Ok(Ok(c)))) => c.federation_version,
                    _ => None,
                }
            },
            r matches Ok(p) ==> {
                let loaded = loaded_subgraphs(remote_subgraphs, supergraph_yaml);
                &&& p.state.resolver.state.origin_path == match supergraph_yaml {
                    Some((FileDescriptorType::File(path), _)) => Some(path),
                    _ => None::<String>,
                }
                &&& (default_subgraph is None || loaded.dom().len() > 0) ==> subgraph_config_map_view(
                    &p.state.resolver.state.subgraphs,
                ) == loaded
                &&& loaded.dom().len() == 0 ==> match default_subgraph {
                    Some(DefaultSubgraphDefinition::Args { name, url, schema_path }) => subgraph_config_map_view(
                        &p.state.resolver.state.subgraphs,
                    ) == map![name@ => default_subgraph_config(url@, opt_string_view(&schema_path))],
                    _ => true,
                }
            },
            r matches Err(CompositionPipelineError::ResolveSubgraphFromPrompt(_)) ==> default_subgraph matches Some(
                DefaultSubgraphDefinition::Prompt(_),
            ),
            !(remote_subgraphs matches Some(Err(_))) && !(supergraph_yaml matches Some((_, Err(_))))
                && !(default_subgraph matches Some(DefaultSubgraphDefinition::Prompt(_))) ==> r is Ok,
    {
        let resolver = SupergraphConfigResolver::default();
        let resolver = match resolver.load_remote_subgraphs(remote_subgraphs) {
            Ok(r) => r,
            Err(e) => return Err(CompositionPipelineError::LoadRemoteSubgraphs(e)),
        };
        let fd = match &supergraph_yaml {
            Some((fd, _)) => Some(copy_file_descriptor(fd)),
            None => None,
        };
        proof {
            use_type_invariant(&resolver.state.subgraphs);
            lemma_config_map_empty(resolver.state.subgraphs);
        }
        let resolver = match resolver.load_from_file_descriptor(supergraph_yaml) {
            Ok(r) => r,
            Err(e) => return Err(CompositionPipelineError::LoadSupergraphConfig(e)),
        };
        proof {
            use_type_invariant(&resolver.state.subgraphs);
            lemma_config_map_empty(resolver.state.subgraphs);
            assert(subgraph_config_map_view(&resolver.state.subgraphs) == loaded_subgraphs(remote_subgraphs, supergraph_yaml));
        }
        let resolver = match default_subgraph {
            Some(default_subgraph) => match resolver.define_default_subgraph_if_empty(default_subgraph) {
                Ok(r) => r,
                Err(e) => return Err(CompositionPipelineError::ResolveSubgraphFromPrompt(e)),
            },
            None => resolver.skip_default_subgraph(),
        };
        Ok(CompositionPipeline { state: ResolveFederationVersion { resolver, supergraph_root, supergraph_yaml: fd } })
    }
}

/// The federation version the user asked for: on the command line, else in the supergraph
/// config.
pub open spec fn user_specified_federation_version(
    passed_in: Option<FederationVersion>,
    target: Option<FederationVersion>,
) -> Option<FederationVersion> {
    match passed_in {
        Some(v) => Some(v),
        None => target,
    }
}

impl CompositionPipeline<ResolveFederationVersion> {
    /// Refuses a Federation 1 version the user asked for, on the command line or in the
    /// supergraph config, before any subgraph is resolved.
    pub fn reject_user_specified_federation_one(
        &self,
        passed_in_fed_version: &Option<FederationVersion>,
    ) -> (r: Result<(), CompositionPipelineError>)
        ensures
            match user_specified_federation_version(
                *passed_in_fed_version,
                self.state.resolver.state.federation_version_resolver.federation_version,
            ) {
                Some(v) => if v@.is_fed_one() {
                    r matches Err(CompositionPipelineError::FederationOneUnsupported(e)) && e.federation_version == v
                } else {
                    r is Ok
                },
                None => r is Ok,
            },
    {
        let user_specified = match passed_in_fed_version {
            Some(v) => Some(v.copy()),
            None => self.state.resolver.state.federation_version_resolver.target_federation_version(),
        };
        match &user_specified {
            Some(v) => match reject_federation_one(v) {
                Ok(()) => Ok(()),
                Err(e) => Err(CompositionPipelineError::FederationOneUnsupported(e)),
            },
            None => Ok(()),
        }
    }

    /// Settles the federation version: the one the user asked for, on the command line or in
    /// the supergraph config, else the latest Federation 2 version; a Federation 1 version is
    /// refused. The subgraphs are fully resolved relative to the supergraph root as the version
    /// is discovered, `fetches` holding, by subgraph name, what was fetched for each.
    pub fn resolve_federation_version(
        self,
        passed_in_fed_version: Option<FederationVersion>,
        fetches: NameMap<SchemaFetch>,
    ) -> (r: Result<CompositionPipeline<InstallSupergraph>, CompositionPipelineError>)
        requires
            fetches_fit(self.state.resolver.state.subgraphs, fetches),
        ensures
            match user_specified_federation_version(
                passed_in_fed_version,
                self.state.resolver.state.federation_version_resolver.federation_version,
            ) {
                Some(v) => if v@.is_fed_one() {
                    r matches Err(CompositionPipelineError::FederationOneUnsupported(e)) && e.federation_version == v
                } else {
                    r matches Ok(p) && p.state.federation_version == v
                },
                None => r matches Ok(p) && p.state.federation_version == FederationVersion::LatestFedTwo,
            },
            r matches Ok(p) ==> p.state.supergraph_root == self.state.supergraph_root
                && p.state.resolver == self.state.resolver,
    {
        self.reject_user_specified_federation_one(&passed_in_fed_version)?;
        let resolved_federation_version = match self.state.resolver.fully_resolve_subgraphs(&self.state.supergraph_root, fetches) {
            Ok((config, _)) => config.federation_version,
            Err(_) => FederationVersion::LatestFedTwo,
        };
        let federation_version = match passed_in_fed_version {
            Some(v) => v,
            None => resolved_federation_version,
        };
        match reject_federation_one(&federation_version) {
            Ok(()) => {},
            Err(e) => return Err(CompositionPipelineError::FederationOneUnsupported(e)),
        }
        Ok(
            CompositionPipeline {
                state: InstallSupergraph {
                    resolver: self.state.resolver,
                    supergraph_root: self.state.supergraph_root,
                    federation_version,
                },
            },
        )
    }
}

impl CompositionPipeline<InstallSupergraph> {
    /// Whether to nudge the user to pin an exact federation version: when asked to, and the
    /// version settled on is not exact.
    pub fn warns_on_floating_version(&self, warn_on_floating_version: bool) -> (b: bool)
        ensures
            b == (warn_on_floating_version && self.state.federation_version@.exact() is None),
    {
        warn_on_floating_version && self.state.federation_version.get_exact().is_none()
    }
}

impl CompositionPipeline<InstallSupergraph> {
    /// Installs the plugin for the settled federation version, given whether the ELv2 license was
    /// accepted and the outcome of obtaining the plugin (see
    /// [`crate::binary::InstallSupergraph::install`]); a failed install is kept for composition
    /// to report.
    pub fn install_supergraph_binary(
        self,
        license: Result<(), String>,
        plugin: Result<PluginProvenance, crate::binary::InstallSupergraphError>,
    ) -> (r: CompositionPipeline<Run>)
        ensures
            r.state.resolver == self.state.resolver,
            r.state.supergraph_root == self.state.supergraph_root,
            self.state.federation_version@.is_fed_two() && license is Err ==> r.state.supergraph_binary matches Err(
                crate::binary::InstallSupergraphError::LicenseNotAccepted,
            ),
            !(self.state.federation_version@.is_fed_two() && license is Err) ==> match plugin {
                Ok(p) => r.state.supergraph_binary matches Ok(b) && b.exe@ == p.path@ && b.version.version == p.version
                    && b.provenance == p,
                Err(e) => r.state.supergraph_binary == Err::<SupergraphBinary, crate::binary::InstallSupergraphError>(e),
            },
    {
        let installer = crate::binary::InstallSupergraph::new(self.state.federation_version);
        let supergraph_binary = installer.install(license, plugin);
        CompositionPipeline {
            state: Run { resolver: self.state.resolver, supergraph_root: self.state.supergraph_root, supergraph_binary },
        }
    }
}

impl CompositionPipeline<Run> {
    /// The supergraph config to write for the plugin to compose: the subgraphs fully resolved
    /// relative to the supergraph root, `fetches` holding what was fetched for each. Composition
    /// is refused where the federation version does not fit the subgraphs, or where some
    /// subgraph did not resolve, naming each such subgraph with its error.
    pub fn composition_input(&self, fetches: NameMap<SchemaFetch>) -> (r: Result<SupergraphConfigYaml, CompositionError>)
        requires
            fetches_fit(self.state.resolver.state.subgraphs, fetches),
        ensures
            match r {
                Ok(yaml) => exists|c: FullyResolvedSupergraphConfig, errors: NameMap<ResolveSubgraphError>| {
                    &&& splits_fully(self.state.supergraph_root@, self.state.resolver.state.subgraphs, fetches, c.subgraphs, errors)
                    &&& errors.keys().len() == 0
                    &&& yaml.federation_version == Some(c.federation_version)
                    &&& yaml.subgraphs.keys() == c.subgraphs.keys()
                    &&& forall|k: Seq<char>| #[trigger] yaml.subgraphs.key_set().contains(k) ==> yaml.subgraphs.spec_get(k).unwrap()@
                        == (SubgraphConfigView {
                            routing_url: opt_string_view(&c.subgraphs.spec_get(k).unwrap().routing_url),
                            schema: crate::config::SchemaSourceView::Sdl { sdl: c.subgraphs.spec_get(k).unwrap().schema@ },
                        })
                },
                Err(CompositionError::ResolvingSubgraphsError { source, provenance }) => provenance is None && match source {
                    ResolveSupergraphConfigError::FederationVersionMismatch(m) => some_resolves_fed_two(
                        self.state.supergraph_root@,
                        self.state.resolver.state.subgraphs,
                        fetches,
                    ) && self.state.resolver.state.federation_version_resolver.federation_version == Some(
                        m.specified_federation_version,
                    ) && m.specified_federation_version@.is_fed_one(),
                    ResolveSupergraphConfigError::ResolveSubgraphs(errors) => errors.keys().len() > 0 && exists|
                        c: FullyResolvedSupergraphConfig,
                    | splits_fully(self.state.supergraph_root@, self.state.resolver.state.subgraphs, fetches, c.subgraphs, errors),
                    _ => false,
                },
                Err(_) => false,
            },
            (r matches Err(
                CompositionError::ResolvingSubgraphsError {
                    source: ResolveSupergraphConfigError::FederationVersionMismatch(_),
                    ..
                },
            )) <==> (self.state.resolver.state.federation_version_resolver.federation_version matches Some(v)
                && v@.is_fed_one() && some_resolves_fed_two(
                self.state.supergraph_root@,
                self.state.resolver.state.subgraphs,
                fetches,
            )),
    {
        let (config, errors) = match self.state.resolver.fully_resolve_subgraphs(&self.state.supergraph_root, fetches) {
            Ok(resolved) => resolved,
            Err(source) => return Err(CompositionError::ResolvingSubgraphsError { source, provenance: None }),
        };
        if !errors.is_empty() {
            return Err(
                CompositionError::ResolvingSubgraphsError {
                    source: ResolveSupergraphConfigError::ResolveSubgraphs(errors),
                    provenance: None,
                },
            );
        }
        proof {
            use_type_invariant(&errors);
        }
        Ok(config.to_supergraph_config_yaml())
    }

    /// The plugin to compose with; a failed install is reported as the failure to update the
    /// federation version.
    pub fn supergraph_binary(&self) -> (r: Result<&SupergraphBinary, CompositionError>)
        ensures
            match self.state.supergraph_binary {
                Ok(b) => r == Ok::<&SupergraphBinary, CompositionError>(&b),
                Err(e) => r == Err::<&SupergraphBinary, CompositionError>(CompositionError::ErrorUpdatingFederationVersion(e)),
            },
    {
        match &self.state.supergraph_binary {
            Ok(b) => Ok(b),
            Err(e) => Err(CompositionError::ErrorUpdatingFederationVersion(e.copy())),
        }
    }
}

} // verus!

//! Supergraph configs at each stage of resolution, and the resolution of one stage into the
//! next once the work on each subgraph is done.
use vstd::prelude::*;

use crate::config::{SchemaSource, SchemaSourceView, SubgraphConfig, SubgraphConfigView, SupergraphConfigYaml};
use crate::federation::{
    fed_two_names, resolved_federation_version, FederationVersionMismatch, FederationVersionResolver,
    FromSubgraphs,
};
use crate::config::opt_federation_version_view;
use crate::name_map::NameMap;
use crate::resolution::{fetch_fits, fully_resolved_as, lemma_fully_resolved_sdl, resolved_sdl, SchemaFetch};
use crate::subgraph::{
    declares_link, lazily_resolved_as, path_join, FullyResolvedSubgraph, LazilyResolvedSubgraph, ResolveSubgraphError,
    UnresolvedSubgraph,
};
use crate::text::opt_string_view;
use crate::version::FederationVersion;

verus! {

/// Errors that may occur while resolving a supergraph config.
#[derive(Debug)]
pub enum ResolveSupergraphConfigError {
    /// Neither a remote nor a local supergraph config was loaded.
    NoSource,
    /// The supergraph config root is missing.
    MissingSupergraphConfigRoot,
    /// Some subgraphs could not be resolved, each with its error, by name.
    ResolveSubgraphs(NameMap<ResolveSubgraphError>),
    /// The user selected Federation 1, but some subgraphs use `@link`.
    FederationVersionMismatch(FederationVersionMismatch),
    /// No federation version resolver was given.
    MissingFederationVersionResolver,
}

/// A supergraph config whose subgraphs are still unresolved.
#[derive(Debug)]
pub struct UnresolvedSupergraphConfig {
    pub origin_path: Option<String>,
    pub subgraphs: NameMap<SubgraphConfig>,
    pub federation_version_resolver: Option<FederationVersionResolver<FromSubgraphs>>,
}

impl UnresolvedSupergraphConfig {
    /// The federation version the user targets, if any.
    pub fn target_federation_version(&self) -> (r: Option<FederationVersion>)
        ensures
            r == match self.federation_version_resolver {
                Some(f) => f.federation_version,
                None => None,
            },
    {
        match &self.federation_version_resolver {
            Some(f) => f.target_federation_version(),
            None => None,
        }
    }

    /// A copy of this config.
    pub fn copy(&self) -> (r: UnresolvedSupergraphConfig)
        ensures
            r.origin_path == self.origin_path,
            r.subgraphs.keys() == self.subgraphs.keys(),
            crate::config::subgraph_config_map_view(&r.subgraphs) == crate::config::subgraph_config_map_view(&self.subgraphs),
            r.federation_version_resolver == self.federation_version_resolver,
    {
        UnresolvedSupergraphConfig {
            origin_path: crate::text::copy_opt_string(&self.origin_path),
            subgraphs: crate::config::copy_subgraph_configs(&self.subgraphs),
            federation_version_resolver: match &self.federation_version_resolver {
                Some(f) => Some(f.copy()),
                None => None,
            },
        }
    }

    /// Leaves out the subgraphs whose names are listed.
    pub fn filter_subgraphs(&mut self, subgraphs_to_remove: &Vec<String>)
        ensures
            final(self).origin_path == old(self).origin_path,
            final(self).federation_version_resolver == old(self).federation_version_resolver,
            final(self).subgraphs.key_set() == old(self).subgraphs.key_set().difference(
                subgraphs_to_remove@.map_values(|n: String| n@).to_set(),
            ),
            forall|x: Seq<char>| #[trigger]
                final(self).subgraphs.spec_get(x) == if subgraphs_to_remove@.map_values(
                    |n: String| n@,
                ).contains(x) {
                    None
                } else {
                    old(self).subgraphs.spec_get(x)
                },
    {
        self.subgraphs.remove_all(subgraphs_to_remove);
    }
}

/// The fully resolved subgraph of an outcome, if it is one.
pub open spec fn success_of(outcome: Option<Result<FullyResolvedSubgraph, ResolveSubgraphError>>) -> Option<FullyResolvedSubgraph> {
    match outcome {
        Some(Ok(s)) => Some(s),
        _ => None,
    }
}

/// The error of an outcome, if it is one.
pub open spec fn failure_of<T>(outcome: Option<Result<T, ResolveSubgraphError>>) -> Option<ResolveSubgraphError> {
    match outcome {
        Some(Err(e)) => Some(e),
        _ => None,
    }
}

/// Whether `fetches` holds, for each subgraph of `configs`, a fetch that fits its schema source.
pub open spec fn fetches_fit(configs: NameMap<SubgraphConfig>, fetches: NameMap<SchemaFetch>) -> bool {
    forall|k: Seq<char>| #[trigger] configs.spec_get(k) matches Some(c) ==> (fetches.spec_get(k) matches Some(f)
        && fetch_fits(c.schema@, f))
}

/// Whether the subgraph `name` with config `config` ended up either resolved as `subgraph` or
/// refused with `error`, exactly one of the two, as [`fully_resolved_as`] says of fully
/// resolving it relative to `root` once `fetched` was done.
pub open spec fn fully_split_as(
    root: Seq<char>,
    name: Seq<char>,
    config: SubgraphConfigView,
    fetched: SchemaFetch,
    subgraph: Option<FullyResolvedSubgraph>,
    error: Option<ResolveSubgraphError>,
) -> bool {
    match (subgraph, error) {
        (Some(s), None) => fully_resolved_as(Some(root), name, config.routing_url, config.schema, fetched, Ok(s)),
        (None, Some(e)) => fully_resolved_as(Some(root), name, config.routing_url, config.schema, fetched, Err(e)),
        _ => false,
    }
}

/// Whether `subgraphs` and `errors` split the subgraphs of `configs` by the outcome of fully
/// resolving each, relative to `root`, once the fetch `fetches` holds for it was done: every
/// configured name is in exactly one of the two, as [`fully_split_as`] says, and no other name
/// is in either.
pub open spec fn splits_fully(
    root: Seq<char>,
    configs: NameMap<SubgraphConfig>,
    fetches: NameMap<SchemaFetch>,
    subgraphs: NameMap<FullyResolvedSubgraph>,
    errors: NameMap<ResolveSubgraphError>,
) -> bool {
    &&& forall|k: Seq<char>|
        #![trigger configs.spec_get(k)]
        #![trigger subgraphs.spec_get(k)]
        #![trigger errors.spec_get(k)]
        configs.spec_get(k) is None ==> subgraphs.spec_get(k) is None && errors.spec_get(k) is None
    &&& forall|k: Seq<char>|
        #![trigger configs.spec_get(k)]
        #![trigger subgraphs.spec_get(k)]
        #![trigger errors.spec_get(k)]
        configs.spec_get(k) is Some ==> fully_split_as(
            root,
            k,
            configs.spec_get(k).unwrap()@,
            fetches.spec_get(k).unwrap(),
            subgraphs.spec_get(k),
            errors.spec_get(k),
        )
}

/// Whether some subgraph of `configs` resolves fully, relative to `root`, once the fetch
/// `fetches` holds for it was done, to an SDL that applies `@link` to its schema.
pub open spec fn some_resolves_fed_two(
    root: Seq<char>,
    configs: NameMap<SubgraphConfig>,
    fetches: NameMap<SchemaFetch>,
) -> bool {
    exists|k: Seq<char>| #[trigger] configs.spec_get(k) matches Some(c) && resolved_sdl(
        Some(root),
        c@.routing_url,
        c.schema@,
        fetches.spec_get(k).unwrap(),
    ) matches Some(sdl) && declares_link(sdl)
}

/// Where subgraphs were split by full resolution, some resolved subgraph is a Federation 2 one
/// exactly when some configured subgraph resolves to an SDL that applies `@link`.
pub proof fn lemma_split_fed_two(
    root: Seq<char>,
    configs: NameMap<SubgraphConfig>,
    fetches: NameMap<SchemaFetch>,
    subgraphs: NameMap<FullyResolvedSubgraph>,
    errors: NameMap<ResolveSubgraphError>,
)
    requires
        subgraphs.is_sorted(),
        fetches_fit(configs, fetches),
        splits_fully(root, configs, fetches, subgraphs, errors),
    ensures
        (fed_two_names(subgraphs.keys(), subgraphs.values()).len() > 0) == some_resolves_fed_two(root, configs, fetches),
{
    crate::federation::lemma_fed_two_names_nonempty(subgraphs.keys(), subgraphs.values());
    if some_resolves_fed_two(root, configs, fetches) {
        let k = choose|k: Seq<char>| #[trigger] configs.spec_get(k) matches Some(c) && resolved_sdl(
            Some(root),
            c@.routing_url,
            c.schema@,
            fetches.spec_get(k).unwrap(),
        ) matches Some(sdl) && declares_link(sdl);
        let c = configs.spec_get(k).unwrap();
        let f = fetches.spec_get(k).unwrap();
        assert(fully_split_as(root, k, c@, f, subgraphs.spec_get(k), errors.spec_get(k)));
        match (subgraphs.spec_get(k), errors.spec_get(k)) {
            (Some(x), None) => {
                lemma_fully_resolved_sdl(Some(root), k, c@.routing_url, c@.schema, f, Ok(x));
            },
            (None, Some(e)) => {
                lemma_fully_resolved_sdl(Some(root), k, c@.routing_url, c@.schema, f, Err(e));
            },
            _ => {},
        }
        let i = subgraphs.keys().index_of(k);
        assert(subgraphs.values()[i].is_fed_two);
    }
    if fed_two_names(subgraphs.keys(), subgraphs.values()).len() > 0 {
        let i = choose|i: int| 0 <= i < subgraphs.values().len() && (#[trigger] subgraphs.values()[i]).is_fed_two;
        subgraphs.lemma_get_at(i);
        let k = subgraphs.keys()[i];
        assert(subgraphs.spec_get(k) is Some);
        assert(configs.spec_get(k) is Some);
        let c = configs.spec_get(k).unwrap();
        let f = fetches.spec_get(k).unwrap();
        assert(fully_split_as(root, k, c@, f, subgraphs.spec_get(k), errors.spec_get(k)));
        lemma_fully_resolved_sdl(Some(root), k, c@.routing_url, c@.schema, f, Ok(subgraphs.spec_get(k).unwrap()));
        assert(configs.spec_get(k) matches Some(c) && resolved_sdl(Some(root), c@.routing_url, c.schema@, fetches.spec_get(k).unwrap())
            matches Some(sdl) && declares_link(sdl));
    }
}

/// Splitting subgraphs by full resolution depends only on the value of their configs: a split
/// of `a` is a split of any `b` that configures the same subgraphs the same way, and the fetches
/// that fit `a` fit `b`.
pub proof fn lemma_split_same_configs(
    root: Seq<char>,
    a: NameMap<SubgraphConfig>,
    b: NameMap<SubgraphConfig>,
    fetches: NameMap<SchemaFetch>,
    subgraphs: NameMap<FullyResolvedSubgraph>,
    errors: NameMap<ResolveSubgraphError>,
)
    requires
        crate::config::subgraph_config_map_view(&a) == crate::config::subgraph_config_map_view(&b),
    ensures
        fetches_fit(a, fetches) == fetches_fit(b, fetches),
        splits_fully(root, a, fetches, subgraphs, errors) == splits_fully(root, b, fetches, subgraphs, errors),
{
    let m = crate::config::subgraph_config_map_view(&a);
    assert forall|k: Seq<char>| #[trigger] a.spec_get(k) is Some == b.spec_get(k) is Some by {
        assert(m.dom().contains(k) == a.key_set().contains(k));
        assert(crate::config::subgraph_config_map_view(&b).dom().contains(k) == b.key_set().contains(k));
    }
    assert forall|k: Seq<char>| #[trigger] a.spec_get(k) is Some implies a.spec_get(k).unwrap()@ == b.spec_get(
        k,
    ).unwrap()@ by {
        assert(m.dom().contains(k));
        assert(m[k] == a.spec_get(k).unwrap()@);
        assert(crate::config::subgraph_config_map_view(&b)[k] == b.spec_get(k).unwrap()@);
    }
    if fetches_fit(a, fetches) {
        assert forall|k: Seq<char>| #[trigger] b.spec_get(k) is Some implies (fetches.spec_get(k) matches Some(f)
            && fetch_fits(b.spec_get(k).unwrap().schema@, f)) by {
            assert(a.spec_get(k) is Some);
        }
    }
    if fetches_fit(b, fetches) {
        assert forall|k: Seq<char>| #[trigger] a.spec_get(k) is Some implies (fetches.spec_get(k) matches Some(f)
            && fetch_fits(a.spec_get(k).unwrap().schema@, f)) by {
            assert(b.spec_get(k) is Some);
        }
    }
}

/// A supergraph config whose subgraphs are resolved down to SDLs, with a known federation
/// version.
#[derive(Debug)]
pub struct FullyResolvedSupergraphConfig {
    pub origin_path: Option<String>,
    pub subgraphs: NameMap<FullyResolvedSubgraph>,
    pub federation_version: FederationVersion,
}

impl FullyResolvedSupergraphConfig {
    /// Resolves a supergraph config fully: each of its subgraphs is resolved down to its SDL as
    /// [`FullyResolvedSubgraph::resolve`] does, relative to the directory
    /// `supergraph_config_root`, once the fetch `fetches` holds for it under its name was done.
    /// The subgraphs that resolve make up the config, and those that do not are returned with
    /// their errors beside it. The federation version is then resolved against the resolved
    /// subgraphs.
    pub fn resolve(
        supergraph_config_root: &String,
        unresolved: UnresolvedSupergraphConfig,
        fetches: NameMap<SchemaFetch>,
    ) -> (r: Result<(FullyResolvedSupergraphConfig, NameMap<ResolveSubgraphError>), ResolveSupergraphConfigError>)
        requires
            fetches_fit(unresolved.subgraphs, fetches),
        ensures
            match unresolved.federation_version_resolver {
                None => r matches Err(ResolveSupergraphConfigError::MissingFederationVersionResolver),
                Some(f) => match r {
                    Ok((c, errors)) => {
                        &&& c.origin_path == unresolved.origin_path
                        &&& splits_fully(supergraph_config_root@, unresolved.subgraphs, fetches, c.subgraphs, errors)
                        &&& resolved_federation_version(
                            opt_federation_version_view(&f.federation_version),
                            fed_two_names(c.subgraphs.keys(), c.subgraphs.values()),
                        ) == Some(c.federation_version@)
                        &&& (f.federation_version matches Some(s) ==> c.federation_version == s)
                    },
                    Err(ResolveSupergraphConfigError::FederationVersionMismatch(m)) => {
                        &&& f.federation_version == Some(m.specified_federation_version)
                        &&& exists|s: NameMap<FullyResolvedSubgraph>, e: NameMap<ResolveSubgraphError>| {
                            &&& s.is_sorted()
                            &&& splits_fully(supergraph_config_root@, unresolved.subgraphs, fetches, s, e)
                            &&& resolved_federation_version(
                                opt_federation_version_view(&f.federation_version),
                                fed_two_names(s.keys(), s.values()),
                            ) is None
                            &&& m.subgraph_names@.map_values(|n: String| n@) == fed_two_names(s.keys(), s.values())
                        }
                    },
                    Err(_) => false,
                },
            },
    {
        let resolver = match unresolved.federation_version_resolver {
            Some(f) => f,
            None => return Err(ResolveSupergraphConfigError::MissingFederationVersionResolver),
        };
        let origin_path = unresolved.origin_path;
        let ghost source = unresolved.subgraphs;
        let ghost given = fetches;
        proof {
            use_type_invariant(&unresolved.subgraphs);
        }
        let mut fetches = fetches;
        let mut entries = unresolved.subgraphs.into_entries();
        let mut outcomes: NameMap<Result<FullyResolvedSubgraph, ResolveSubgraphError>> = NameMap::new();
        let ghost total = entries@.len();
        while entries.len() > 0
            invariant
                source.is_sorted(),
                total == source.keys().len(),
                entries@.len() <= total,
                fetches_fit(source, given),
                crate::name_map::entry_names(entries@) == source.keys().take(entries@.len() as int),
                crate::name_map::entry_values(entries@) == source.values().take(entries@.len() as int),
                forall|k: Seq<char>| #[trigger] source.keys().contains(k) && source.keys().index_of(k) < entries@.len()
                    ==> fetches.spec_get(k) == given.spec_get(k),
                forall|k: Seq<char>| #[trigger] outcomes.key_set().contains(k) == (source.keys().contains(k)
                    && source.keys().index_of(k) >= entries@.len()),
                forall|k: Seq<char>| #[trigger] outcomes.key_set().contains(k) ==> (outcomes.spec_get(k) matches Some(o)
                    && fully_resolved_as(
                    Some(supergraph_config_root@),
                    k,
                    source.spec_get(k).unwrap()@.routing_url,
                    source.spec_get(k).unwrap()@.schema,
                    given.spec_get(k).unwrap(),
                    o,
                )),
            decreases entries@.len(),
        {
            let ghost m = entries@.len() - 1;
            let ghost pre = entries@;
            let (name, config) = entries.pop().unwrap();
            proof {
                assert(crate::name_map::entry_names(pre)[m] == source.keys().take(m + 1)[m]);
                assert(crate::name_map::entry_values(pre)[m] == source.values().take(m + 1)[m]);
                source.lemma_get_at(m);
                assert(source.keys()[m] == name@);
                assert(source.values()[m] == config);
                assert(crate::name_map::entry_names(entries@) =~= source.keys().take(m));
                assert(crate::name_map::entry_values(entries@) =~= source.values().take(m));
                assert(source.spec_get(name@) == Some(config));
                assert(fetches.spec_get(name@) == given.spec_get(name@));
            }
            let ghost key = name@;
            let ghost fetches_before = fetches;
            let fetched = match fetches.remove(&name) {
                Some(f) => f,
                None => SchemaFetch::Nothing,
            };
            let key_name = name.clone();
            let SubgraphConfig { routing_url, schema } = config;
            let outcome = FullyResolvedSubgraph::resolve(
                Some(supergraph_config_root),
                UnresolvedSubgraph { name, schema, routing_url },
                fetched,
            );
            let ghost before = outcomes;
            outcomes.insert(key_name, outcome);
            proof {
                assert forall|k: Seq<char>| #[trigger] source.keys().contains(k) && source.keys().index_of(k)
                    < entries@.len() implies fetches.spec_get(k) == given.spec_get(k) by {
                    source.lemma_get_at(source.keys().index_of(k));
                    assert(fetches_before.spec_get(k) == given.spec_get(k));
                }
                assert forall|k: Seq<char>| #[trigger] outcomes.key_set().contains(k) == (source.keys().contains(k)
                    && source.keys().index_of(k) >= entries@.len()) by {
                    assert(before.key_set().contains(k) == (source.keys().contains(k)
                        && source.keys().index_of(k) >= m + 1));
                    if source.keys().contains(k) {
                        source.lemma_get_at(source.keys().index_of(k));
                    }
                }
                assert forall|k: Seq<char>| #[trigger] outcomes.key_set().contains(k) implies (outcomes.spec_get(k) matches Some(o)
                    && fully_resolved_as(
                    Some(supergraph_config_root@),
                    k,
                    source.spec_get(k).unwrap()@.routing_url,
                    source.spec_get(k).unwrap()@.schema,
                    given.spec_get(k).unwrap(),
                    o,
                )) by {
                    if k != key {
                        assert(before.key_set().contains(k));
                    }
                }
            }
        }
        let (subgraphs, errors) = partition_outcomes(outcomes);
        proof {
            use_type_invariant(&subgraphs);
            assert forall|k: Seq<char>| #[trigger] source.spec_get(k) is None implies subgraphs.spec_get(k) is None
                && errors.spec_get(k) is None by {
                if outcomes.key_set().contains(k) {
                    source.lemma_get_at(source.keys().index_of(k));
                }
            }
            assert forall|k: Seq<char>| #[trigger] source.spec_get(k) is Some implies fully_split_as(
                supergraph_config_root@,
                k,
                source.spec_get(k).unwrap()@,
                given.spec_get(k).unwrap(),
                subgraphs.spec_get(k),
                errors.spec_get(k),
            ) by {
                assert(source.keys().contains(k));
                source.lemma_get_at(source.keys().index_of(k));
                assert(outcomes.key_set().contains(k));
            }
            assert(splits_fully(supergraph_config_root@, source, given, subgraphs, errors));
        }
        match resolver.resolve(&subgraphs) {
            Ok(federation_version) => Ok((
                FullyResolvedSupergraphConfig { origin_path, subgraphs, federation_version },
                errors,
            )),
            Err(m) => Err(ResolveSupergraphConfigError::FederationVersionMismatch(m)),
        }
    }

    /// Stores `subgraph` under `name`, returning the subgraph it replaces, if any.
    pub fn update_subgraph_schema(&mut self, name: String, subgraph: FullyResolvedSubgraph) -> (r: Option<FullyResolvedSubgraph>)
        ensures
            r == old(self).subgraphs.spec_get(name@),
            final(self).subgraphs.key_set() == old(self).subgraphs.key_set().insert(name@),
            forall|x: Seq<char>| #[trigger] final(self).subgraphs.spec_get(x) == if x == name@ {
                Some(subgraph)
            } else {
                old(self).subgraphs.spec_get(x)
            },
            final(self).origin_path == old(self).origin_path,
            final(self).federation_version == old(self).federation_version,
    {
        self.subgraphs.insert(name, subgraph)
    }

    /// Sets the routing URL of the subgraph `subgraph_name`. Returns the URL it had when it
    /// changes; nothing changes, and nothing is returned, when there is no such subgraph or
    /// its URL is already the one given.
    pub fn update_routing_url(&mut self, subgraph_name: &String, routing_url: Option<String>) -> (r: Option<Option<String>>)
        ensures
            final(self).origin_path == old(self).origin_path,
            final(self).federation_version == old(self).federation_version,
            match old(self).subgraphs.spec_get(subgraph_name@) {
                None => r is None && final(self).subgraphs == old(self).subgraphs,
                Some(s) => if opt_string_view(&routing_url) == opt_string_view(&s.routing_url) {
                    r is None && final(self).subgraphs == old(self).subgraphs
                } else {
                    &&& r == Some(s.routing_url)
                    &&& final(self).subgraphs.key_set() == old(self).subgraphs.key_set()
                    &&& forall|x: Seq<char>| #[trigger] final(self).subgraphs.spec_get(x) == if x == subgraph_name@ {
                        Some(FullyResolvedSubgraph { routing_url, ..s })
                    } else {
                        old(self).subgraphs.spec_get(x)
                    }
                },
            },
    {
        let same = match self.subgraphs.get(subgraph_name) {
            None => return None,
            Some(s) => match (&routing_url, &s.routing_url) {
                (Some(a), Some(b)) => *a == *b,
                (None, None) => true,
                _ => false,
            },
        };
        if same {
            return None;
        }
        let ghost before = self.subgraphs;
        let removed = self.subgraphs.remove(subgraph_name);
        match removed {
            Some(s) => {
                let original = s.routing_url;
                let updated = FullyResolvedSubgraph {
                    name: s.name,
                    routing_url,
                    schema: s.schema,
                    schema_source: s.schema_source,
                    is_fed_two: s.is_fed_two,
                };
                self.subgraphs.insert(subgraph_name.clone(), updated);
                proof {
                    assert(self.subgraphs.key_set() =~= before.key_set());
                }
                Some(original)
            },
            None => None,
        }
    }

    /// Removes the subgraph named `name`, if there is one.
    pub fn remove_subgraph(&mut self, name: &String)
        ensures
            final(self).origin_path == old(self).origin_path,
            final(self).federation_version == old(self).federation_version,
            final(self).subgraphs.key_set() == old(self).subgraphs.key_set().remove(name@),
            forall|x: Seq<char>| #[trigger] final(self).subgraphs.spec_get(x) == if x == name@ {
                None
            } else {
                old(self).subgraphs.spec_get(x)
            },
    {
        self.subgraphs.remove(name);
    }

    /// The supergraph config that describes this one, leaving it as it is: every subgraph with
    /// its routing URL and its SDL written inline, and the federation version.
    pub fn to_supergraph_config_yaml(&self) -> (r: SupergraphConfigYaml)
        ensures
            r.federation_version == Some(self.federation_version),
            r.subgraphs.keys() == self.subgraphs.keys(),
            forall|k: Seq<char>| #[trigger] r.subgraphs.key_set().contains(k) ==> r.subgraphs.spec_get(k).unwrap()@
                == (SubgraphConfigView {
                    routing_url: opt_string_view(&self.subgraphs.spec_get(k).unwrap().routing_url),
                    schema: SchemaSourceView::Sdl { sdl: self.subgraphs.spec_get(k).unwrap().schema@ },
                }),
    {
        let m = &self.subgraphs;
        proof {
            use_type_invariant(m);
        }
        let mut r: NameMap<SubgraphConfig> = NameMap::new();
        let n = m.len();
        let mut i: usize = 0;
        while i < n
            invariant
                m.is_sorted(),
                n == m.keys().len(),
                i <= n,
                r.keys() == m.keys().take(i as int),
                r.values().len() == i,
                forall|j: int| 0 <= j < i ==> (#[trigger] r.values()[j])@ == (SubgraphConfigView {
                    routing_url: opt_string_view(&m.values()[j].routing_url),
                    schema: SchemaSourceView::Sdl { sdl: m.values()[j].schema@ },
                }),
            decreases n - i,
        {
            proof {
                use_type_invariant(&r);
            }
            let k = m.key_at(i).clone();
            let s = m.value_at(i);
            let v = SubgraphConfig {
                routing_url: crate::text::copy_opt_string(&s.routing_url),
                schema: SchemaSource::Sdl { sdl: s.schema.clone() },
            };
            proof {
                assert forall|j: int| 0 <= j < r.keys().len() implies crate::name_map::name_before(
                    #[trigger] r.keys()[j],
                    k@,
                ) by {
                    assert(r.keys()[j] == m.keys()[j]);
                }
            }
            r.insert_last(k, v);
            proof {
                assert(r.keys() =~= m.keys().take(i + 1));
            }
            i = i + 1;
        }
        proof {
            use_type_invariant(&r);
            assert(r.keys() =~= m.keys());
            assert forall|k: Seq<char>| #[trigger] r.key_set().contains(k) implies r.spec_get(k).unwrap()@
                == (SubgraphConfigView {
                    routing_url: opt_string_view(&m.spec_get(k).unwrap().routing_url),
                    schema: SchemaSourceView::Sdl { sdl: m.spec_get(k).unwrap().schema@ },
                }) by {
                let j = r.keys().index_of(k);
                r.lemma_get_at(j);
                m.lemma_get_at(j);
            }
        }
        SupergraphConfigYaml { subgraphs: r, federation_version: Some(self.federation_version.copy()) }
    }

    /// The supergraph config that describes this one: every subgraph with its routing URL and its
    /// SDL written inline, and the federation version.
    pub fn into_supergraph_config_yaml(self) -> (r: SupergraphConfigYaml)
        ensures
            r.federation_version == Some(self.federation_version),
            r.subgraphs.key_set() == self.subgraphs.key_set(),
            forall|k: Seq<char>| #[trigger] r.subgraphs.spec_get(k) == match self.subgraphs.spec_get(k) {
                Some(s) => Some(SubgraphConfig { routing_url: s.routing_url, schema: SchemaSource::Sdl { sdl: s.schema } }),
                None => None,
            },
    {
        let ghost source = self.subgraphs;
        proof {
            use_type_invariant(&self.subgraphs);
        }
        let mut entries = self.subgraphs.into_entries();
        let mut subgraphs: NameMap<SubgraphConfig> = NameMap::new();
        let ghost total = entries@.len();
        while entries.len() > 0
            invariant
                source.is_sorted(),
                total == source.keys().len(),
                entries@.len() <= total,
                crate::name_map::entry_names(entries@) == source.keys().take(entries@.len() as int),
                crate::name_map::entry_values(entries@) == source.values().take(entries@.len() as int),
                forall|k: Seq<char>| #[trigger] subgraphs.spec_get(k) == if source.keys().contains(k)
                    && source.keys().index_of(k) >= entries@.len() {
                    Some(SubgraphConfig {
                        routing_url: source.spec_get(k).unwrap().routing_url,
                        schema: SchemaSource::Sdl { sdl: source.spec_get(k).unwrap().schema },
                    })
                } else {
                    None
                },
                forall|k: Seq<char>| #[trigger] subgraphs.key_set().contains(k) == (source.keys().contains(k)
                    && source.keys().index_of(k) >= entries@.len()),
            decreases entries@.len(),
        {
            let ghost m = entries@.len() - 1;
            let ghost pre = entries@;
            let (name, subgraph) = entries.pop().unwrap();
            proof {
                assert(crate::name_map::entry_names(pre)[m] == source.keys().take(m + 1)[m]);
                assert(crate::name_map::entry_values(pre)[m] == source.values().take(m + 1)[m]);
            }
            proof {
                source.lemma_get_at(m);
                assert(source.keys()[m] == name@);
                assert(source.values()[m] == subgraph);
                assert(crate::name_map::entry_names(entries@) =~= source.keys().take(m));
                assert(crate::name_map::entry_values(entries@) =~= source.values().take(m));
            }
            let ghost before = subgraphs;
            subgraphs.insert(name, subgraph.into_subgraph_config());
            proof {
                assert forall|k: Seq<char>| #[trigger] subgraphs.key_set().contains(k) == (source.keys().contains(k)
                    && source.keys().index_of(k) >= entries@.len()) by {
                    if source.keys().contains(k) {
                        source.lemma_get_at(source.keys().index_of(k));
                    }
                }
                assert forall|k: Seq<char>| #[trigger] subgraphs.spec_get(k) == if source.keys().contains(k)
                    && source.keys().index_of(k) >= entries@.len() {
                    Some(SubgraphConfig {
                        routing_url: source.spec_get(k).unwrap().routing_url,
                        schema: SchemaSource::Sdl { sdl: source.spec_get(k).unwrap().schema },
                    })
                } else {
                    None
                } by {
                    assert(before.spec_get(k) == if source.keys().contains(k)
                        && source.keys().index_of(k) >= m + 1 {
                        Some(SubgraphConfig {
                            routing_url: source.spec_get(k).unwrap().routing_url,
                            schema: SchemaSource::Sdl { sdl: source.spec_get(k).unwrap().schema },
                        })
                    } else {
                        None
                    });
                    if source.keys().contains(k) {
                        source.lemma_get_at(source.keys().index_of(k));
                    }
                }
            }
        }
        proof {
            assert(subgraphs.key_set() =~= source.key_set());
        }
        SupergraphConfigYaml { subgraphs, federation_version: Some(self.federation_version) }
    }
}

/// A supergraph config whose schema file paths are canonical and known to exist.
#[derive(Debug)]
pub struct LazilyResolvedSupergraphConfig {
    pub origin_path: Option<String>,
    pub subgraphs: NameMap<LazilyResolvedSubgraph>,
    pub federation_version: Option<FederationVersion>,
}

/// Whether a subgraph `name` with config `config` ended up either resolved as `subgraph` or
/// refused with `error`, exactly one of the two, as [`lazily_resolved_as`] says.
pub open spec fn split_as(
    root: Seq<char>,
    name: Seq<char>,
    config: SubgraphConfigView,
    canonicalized: Option<Result<String, String>>,
    subgraph: Option<LazilyResolvedSubgraph>,
    error: Option<ResolveSubgraphError>,
) -> bool {
    match (subgraph, error) {
        (Some(l), None) => lazily_resolved_as(root, name, config, canonicalized, Ok(l)),
        (None, Some(e)) => lazily_resolved_as(root, name, config, canonicalized, Err(e)),
        _ => false,
    }
}

/// A copy of the outcome of canonicalizing a path.
fn copy_outcome(o: &Result<String, String>) -> (r: Result<String, String>)
    ensures
        r == *o,
{
    match o {
        Ok(c) => Ok(c.clone()),
        Err(e) => Err(e.clone()),
    }
}

impl LazilyResolvedSupergraphConfig {
    /// Resolves a supergraph config lazily: each subgraph as [`LazilyResolvedSubgraph::resolve`]
    /// does, against the directory `root`. The subgraphs that resolve make up the config, with
    /// the federation version the user targets; those that do not are returned with their
    /// errors beside it. `canonicalized` holds, by subgraph name, what canonicalizing the path
    /// of each schema file gave.
    pub fn resolve(
        root: &String,
        unresolved: UnresolvedSupergraphConfig,
        canonicalized: &NameMap<Result<String, String>>,
    ) -> (r: (LazilyResolvedSupergraphConfig, NameMap<ResolveSubgraphError>))
        requires
            forall|k: Seq<char>| #[trigger] unresolved.subgraphs.spec_get(k) matches Some(c) && c.schema is File
                ==> canonicalized.key_set().contains(k),
        ensures
            r.0.origin_path == unresolved.origin_path,
            r.0.federation_version == match unresolved.federation_version_resolver {
                Some(f) => f.federation_version,
                None => None,
            },
            forall|k: Seq<char>| #[trigger] unresolved.subgraphs.spec_get(k) is None ==> r.0.subgraphs.spec_get(k) is None
                && r.1.spec_get(k) is None,
            forall|k: Seq<char>| #[trigger] unresolved.subgraphs.spec_get(k) matches Some(c) ==> split_as(
                root@,
                k,
                c@,
                canonicalized.spec_get(k),
                r.0.subgraphs.spec_get(k),
                r.1.spec_get(k),
            ),
    {
        let federation_version = unresolved.target_federation_version();
        let origin_path = unresolved.origin_path;
        let ghost source = unresolved.subgraphs;
        proof {
            use_type_invariant(&unresolved.subgraphs);
        }
        let mut entries = unresolved.subgraphs.into_entries();
        let mut outcomes: NameMap<Result<LazilyResolvedSubgraph, ResolveSubgraphError>> = NameMap::new();
        let ghost total = entries@.len();
        while entries.len() > 0
            invariant
                source.is_sorted(),
                total == source.keys().len(),
                entries@.len() <= total,
                crate::name_map::entry_names(entries@) == source.keys().take(entries@.len() as int),
                crate::name_map::entry_values(entries@) == source.values().take(entries@.len() as int),
                forall|k: Seq<char>| #[trigger] source.spec_get(k) matches Some(c) && c.schema is File
                    ==> canonicalized.key_set().contains(k),
                forall|k: Seq<char>| #[trigger] outcomes.key_set().contains(k) == (source.keys().contains(k)
                    && source.keys().index_of(k) >= entries@.len()),
                forall|k: Seq<char>| #[trigger] outcomes.key_set().contains(k) ==> (outcomes.spec_get(k) matches Some(o)
                    && lazily_resolved_as(root@, k, source.spec_get(k).unwrap()@, canonicalized.spec_get(k), o)),
            decreases entries@.len(),
        {
            let ghost m = entries@.len() - 1;
            let ghost pre = entries@;
            let (name, config) = entries.pop().unwrap();
            proof {
                assert(crate::name_map::entry_names(pre)[m] == source.keys().take(m + 1)[m]);
                assert(crate::name_map::entry_values(pre)[m] == source.values().take(m + 1)[m]);
                source.lemma_get_at(m);
                assert(source.keys()[m] == name@);
                assert(source.values()[m] == config);
                assert(crate::name_map::entry_names(entries@) =~= source.keys().take(m));
                assert(crate::name_map::entry_values(entries@) =~= source.values().take(m));
            }
            let canonical = match canonicalized.get(&name) {
                Some(o) => Some(copy_outcome(o)),
                None => None,
            };
            proof {
                if config.schema is File {
                    assert(source.spec_get(name@) matches Some(c) && c.schema is File);
                }
            }
            let ghost key = name@;
            let ghost cfg = config;
            let key_name = name.clone();
            let outcome = LazilyResolvedSubgraph::resolve(root, name, config, canonical);
            let ghost before = outcomes;
            outcomes.insert(key_name, outcome);
            proof {
                assert forall|k: Seq<char>| #[trigger] outcomes.key_set().contains(k) == (source.keys().contains(k)
                    && source.keys().index_of(k) >= entries@.len()) by {
                    assert(before.key_set().contains(k) == (source.keys().contains(k)
                        && source.keys().index_of(k) >= m + 1));
                    if source.keys().contains(k) {
                        source.lemma_get_at(source.keys().index_of(k));
                    }
                }
                assert forall|k: Seq<char>| #[trigger] outcomes.key_set().contains(k) implies (outcomes.spec_get(k) matches Some(o)
                    && lazily_resolved_as(root@, k, source.spec_get(k).unwrap()@, canonicalized.spec_get(k), o)) by {
                    if k != key {
                        assert(before.key_set().contains(k));
                    }
                }
            }
        }
        let (subgraphs, errors) = partition_outcomes(outcomes);
        proof {
            assert forall|k: Seq<char>| #[trigger] source.spec_get(k) is None implies subgraphs.spec_get(k) is None
                && errors.spec_get(k) is None by {
                if outcomes.key_set().contains(k) {
                    source.lemma_get_at(source.keys().index_of(k));
                }
            }
            assert forall|k: Seq<char>| #[trigger] source.spec_get(k) is Some implies split_as(
                root@,
                k,
                source.spec_get(k).unwrap()@,
                canonicalized.spec_get(k),
                subgraphs.spec_get(k),
                errors.spec_get(k),
            ) by {
                assert(source.keys().contains(k));
                source.lemma_get_at(source.keys().index_of(k));
                assert(outcomes.key_set().contains(k));
            }
        }
        (LazilyResolvedSupergraphConfig { origin_path, subgraphs, federation_version }, errors)
    }

    /// The supergraph config that describes this one: every subgraph with its routing URL and
    /// schema source, and the federation version.
    pub fn into_supergraph_config_yaml(self) -> (r: SupergraphConfigYaml)
        ensures
            r.federation_version == self.federation_version,
            r.subgraphs.key_set() == self.subgraphs.key_set(),
            forall|k: Seq<char>| #[trigger] r.subgraphs.spec_get(k) == match self.subgraphs.spec_get(k) {
                Some(s) => Some(SubgraphConfig { routing_url: s.routing_url, schema: s.schema }),
                None => None,
            },
    {
        let ghost source = self.subgraphs;
        proof {
            use_type_invariant(&self.subgraphs);
        }
        let mut entries = self.subgraphs.into_entries();
        let mut subgraphs: NameMap<SubgraphConfig> = NameMap::new();
        let ghost total = entries@.len();
        while entries.len() > 0
            invariant
                source.is_sorted(),
                total == source.keys().len(),
                entries@.len() <= total,
                crate::name_map::entry_names(entries@) == source.keys().take(entries@.len() as int),
                crate::name_map::entry_values(entries@) == source.values().take(entries@.len() as int),
                forall|k: Seq<char>| #[trigger] subgraphs.spec_get(k) == if source.keys().contains(k)
                    && source.keys().index_of(k) >= entries@.len() {
                    Some(SubgraphConfig {
                        routing_url: source.spec_get(k).unwrap().routing_url,
                        schema: source.spec_get(k).unwrap().schema,
                    })
                } else {
                    None
                },
                forall|k: Seq<char>| #[trigger] subgraphs.key_set().contains(k) == (source.keys().contains(k)
                    && source.keys().index_of(k) >= entries@.len()),
            decreases entries@.len(),
        {
            let ghost m = entries@.len() - 1;
            let ghost pre = entries@;
            let (name, subgraph) = entries.pop().unwrap();
            proof {
                assert(crate::name_map::entry_names(pre)[m] == source.keys().take(m + 1)[m]);
                assert(crate::name_map::entry_values(pre)[m] == source.values().take(m + 1)[m]);
                source.lemma_get_at(m);
                assert(source.keys()[m] == name@);
                assert(source.values()[m] == subgraph);
                assert(crate::name_map::entry_names(entries@) =~= source.keys().take(m));
                assert(crate::name_map::entry_values(entries@) =~= source.values().take(m));
            }
            let ghost before = subgraphs;
            subgraphs.insert(name, subgraph.into_subgraph_config());
            proof {
                assert forall|k: Seq<char>| #[trigger] subgraphs.key_set().contains(k) == (source.keys().contains(k)
                    && source.keys().index_of(k) >= entries@.len()) by {
                    if source.keys().contains(k) {
                        source.lemma_get_at(source.keys().index_of(k));
                    }
                }
                assert forall|k: Seq<char>| #[trigger] subgraphs.spec_get(k) == if source.keys().contains(k)
                    && source.keys().index_of(k) >= entries@.len() {
                    Some(SubgraphConfig {
                        routing_url: source.spec_get(k).unwrap().routing_url,
                        schema: source.spec_get(k).unwrap().schema,
                    })
                } else {
                    None
                } by {
                    assert(before.spec_get(k) == if source.keys().contains(k)
                        && source.keys().index_of(k) >= m + 1 {
                        Some(SubgraphConfig {
                            routing_url: source.spec_get(k).unwrap().routing_url,
                            schema: source.spec_get(k).unwrap().schema,
                        })
                    } else {
                        None
                    });
                    if source.keys().contains(k) {
                        source.lemma_get_at(source.keys().index_of(k));
                    }
                }
            }
        }
        proof {
            assert(subgraphs.key_set() =~= source.key_set());
        }
        SupergraphConfigYaml { subgraphs, federation_version: self.federation_version }
    }

    /// Leaves out the subgraphs whose names are listed.
    pub fn filter_subgraphs(&mut self, subgraphs_to_remove: &Vec<String>)
        ensures
            final(self).origin_path == old(self).origin_path,
            final(self).federation_version == old(self).federation_version,
            final(self).subgraphs.key_set() == old(self).subgraphs.key_set().difference(
                subgraphs_to_remove@.map_values(|n: String| n@).to_set(),
            ),
            forall|x: Seq<char>| #[trigger]
                final(self).subgraphs.spec_get(x) == if subgraphs_to_remove@.map_values(
                    |n: String| n@,
                ).contains(x) {
                    None
                } else {
                    old(self).subgraphs.spec_get(x)
                },
    {
        self.subgraphs.remove_all(subgraphs_to_remove);
    }
}

/// Splits the outcomes of resolving subgraphs into the subgraphs that resolved and the errors of
/// those that did not, by name.
pub fn partition_outcomes<T>(outcomes: NameMap<Result<T, ResolveSubgraphError>>) -> (r: (NameMap<T>, NameMap<ResolveSubgraphError>))
    ensures
        forall|k: Seq<char>| #[trigger] r.0.spec_get(k) == match outcomes.spec_get(k) {
            Some(Ok(s)) => Some(s),
            _ => None,
        },
        forall|k: Seq<char>| #[trigger] r.1.spec_get(k) == failure_of(outcomes.spec_get(k)),
{
    let ghost source = outcomes;
    proof {
        use_type_invariant(&outcomes);
    }
    let mut entries = outcomes.into_entries();
    let mut successes: NameMap<T> = NameMap::new();
    let mut failures: NameMap<ResolveSubgraphError> = NameMap::new();
    let ghost total = entries@.len();
    while entries.len() > 0
        invariant
            source.is_sorted(),
            total == source.keys().len(),
            entries@.len() <= total,
            crate::name_map::entry_names(entries@) == source.keys().take(entries@.len() as int),
            crate::name_map::entry_values(entries@) == source.values().take(entries@.len() as int),
            forall|k: Seq<char>| #[trigger] successes.spec_get(k) == if source.keys().contains(k)
                && source.keys().index_of(k) >= entries@.len() {
                match source.spec_get(k) {
                    Some(Ok(s)) => Some(s),
                    _ => None,
                }
            } else {
                None
            },
            forall|k: Seq<char>| #[trigger] failures.spec_get(k) == if source.keys().contains(k)
                && source.keys().index_of(k) >= entries@.len() {
                failure_of(source.spec_get(k))
            } else {
                None
            },
        decreases entries@.len(),
    {
        let ghost m = entries@.len() - 1;
        let ghost pre = entries@;
        let (name, outcome) = entries.pop().unwrap();
        proof {
            assert(crate::name_map::entry_names(pre)[m] == source.keys().take(m + 1)[m]);
            assert(crate::name_map::entry_values(pre)[m] == source.values().take(m + 1)[m]);
        }
        proof {
            source.lemma_get_at(m);
            assert(source.keys()[m] == name@);
            assert(source.values()[m] == outcome);
            assert(crate::name_map::entry_names(entries@) =~= source.keys().take(m));
            assert(crate::name_map::entry_values(entries@) =~= source.values().take(m));
        }
        let ghost s_before = successes;
        let ghost f_before = failures;
        match outcome {
            Ok(s) => {
                successes.insert(name, s);
            },
            Err(e) => {
                failures.insert(name, e);
            },
        }
        proof {
            assert forall|k: Seq<char>| #[trigger] successes.spec_get(k) == if source.keys().contains(k)
                && source.keys().index_of(k) >= entries@.len() {
                match source.spec_get(k) {
                    Some(Ok(s)) => Some(s),
                    _ => None,
                }
            } else {
                None
            } by {
                assert(s_before.spec_get(k) == if source.keys().contains(k) && source.keys().index_of(k) >= m + 1 {
                    match source.spec_get(k) {
                        Some(Ok(s)) => Some(s),
                        _ => None,
                    }
                } else {
                    None
                });
                if source.keys().contains(k) {
                    source.lemma_get_at(source.keys().index_of(k));
                }
            }
            assert forall|k: Seq<char>| #[trigger] failures.spec_get(k) == if source.keys().contains(k)
                && source.keys().index_of(k) >= entries@.len() {
                failure_of(source.spec_get(k))
            } else {
                None
            } by {
                assert(f_before.spec_get(k) == if source.keys().contains(k) && source.keys().index_of(k) >= m + 1 {
                    failure_of(source.spec_get(k))
                } else {
                    None
                });
                if source.keys().contains(k) {
                    source.lemma_get_at(source.keys().index_of(k));
                }
            }
        }
    }
    (successes, failures)
}

} // verus!

//! Resolution of the federation version from user input: the CLI, the supergraph config, and
//! the subgraph SDLs.
use vstd::prelude::*;

use crate::config::{opt_federation_version_view, SupergraphConfigYaml};
use crate::name_map::NameMap;
use crate::subgraph::FullyResolvedSubgraph;
use crate::version::{FederationVersion, FederationVersionView};

verus! {

/// The stage at which the supergraph config may still contribute a federation version.
#[derive(Clone, Copy, Debug)]
pub struct FromSupergraphConfig;

/// The stage at which only the subgraph SDLs are left to look at.
#[derive(Clone, Copy, Debug)]
pub struct FromSubgraphs;

/// The user selected a Federation 1 version, but subgraphs use the `@link` directive, which only
/// Federation 2 knows.
#[derive(Debug)]
pub struct FederationVersionMismatch {
    /// The federation version the user specified.
    pub specified_federation_version: FederationVersion,
    /// The subgraphs that use `@link`, in name order.
    pub subgraph_names: Vec<String>,
}

/// Resolves a federation version, one stage at a time.
#[derive(Debug)]
pub struct FederationVersionResolver<State> {
    pub state: State,
    pub federation_version: Option<FederationVersion>,
}

impl Default for FederationVersionResolver<FromSupergraphConfig> {
    fn default() -> (r: Self)
        ensures
            r.federation_version is None,
    {
        FederationVersionResolver { state: FromSupergraphConfig, federation_version: None }
    }
}

/// The names of the subgraphs, among `names` and `subgraphs` taken pairwise, that are Federation 2
/// subgraphs, in order.
pub open spec fn fed_two_names(names: Seq<Seq<char>>, subgraphs: Seq<FullyResolvedSubgraph>) -> Seq<Seq<char>>
    decreases names.len(),
{
    if names.len() == 0 || subgraphs.len() == 0 {
        Seq::empty()
    } else {
        let rest = fed_two_names(names.drop_last(), subgraphs.drop_last());
        if subgraphs.last().is_fed_two {
            rest.push(names.last())
        } else {
            rest
        }
    }
}

/// Some subgraph is named a Federation 2 one exactly when some subgraph is one.
pub proof fn lemma_fed_two_names_nonempty(names: Seq<Seq<char>>, subgraphs: Seq<FullyResolvedSubgraph>)
    requires
        names.len() == subgraphs.len(),
    ensures
        (fed_two_names(names, subgraphs).len() > 0) == (exists|i: int| 0 <= i < subgraphs.len()
            && (#[trigger] subgraphs[i]).is_fed_two),
    decreases names.len(),
{
    if names.len() > 0 {
        let front = subgraphs.drop_last();
        lemma_fed_two_names_nonempty(names.drop_last(), front);
        if exists|i: int| 0 <= i < front.len() && (#[trigger] front[i]).is_fed_two {
            let i = choose|i: int| 0 <= i < front.len() && (#[trigger] front[i]).is_fed_two;
            assert(subgraphs[i] == front[i]);
        }
        if exists|i: int| 0 <= i < subgraphs.len() && (#[trigger] subgraphs[i]).is_fed_two {
            let i = choose|i: int| 0 <= i < subgraphs.len() && (#[trigger] subgraphs[i]).is_fed_two;
            if i < front.len() {
                assert(front[i] == subgraphs[i]);
            }
        }
    }
}

/// The federation version that subgraph SDLs leave for a user's choice `specified`: the
/// choice itself, unless it is a Federation 1 version while some subgraph is a Federation 2
/// one; the latest Federation 2 version when the user made no choice.
pub open spec fn resolved_federation_version(
    specified: Option<FederationVersionView>,
    fed_two: Seq<Seq<char>>,
) -> Option<FederationVersionView> {
    match specified {
        None => Some(FederationVersionView::LatestFedTwo),
        Some(v) => if v.is_fed_one() && fed_two.len() > 0 {
            None
        } else {
            Some(v)
        },
    }
}

impl FederationVersionResolver<FromSupergraphConfig> {
    /// A resolver that starts from the federation version the user gave.
    pub fn new(federation_version: FederationVersion) -> (r: FederationVersionResolver<FromSupergraphConfig>)
        ensures
            r.federation_version == Some(federation_version),
    {
        FederationVersionResolver { state: FromSupergraphConfig, federation_version: Some(federation_version) }
    }

    /// Takes the supergraph config's federation version into account: a version the user gave
    /// before takes precedence over it.
    pub fn from_supergraph_config(
        self,
        supergraph_config: Option<&SupergraphConfigYaml>,
    ) -> (r: FederationVersionResolver<FromSubgraphs>)
        ensures
            r.federation_version == match self.federation_version {
                Some(v) => Some(v),
                None => match supergraph_config {
                    Some(c) => c.federation_version,
                    None => None,
                },
            },
    {
        let federation_version = match self.federation_version {
            Some(v) => Some(v),
            None => match supergraph_config {
                Some(c) => c.get_federation_version(),
                None => None,
            },
        };
        FederationVersionResolver { state: FromSubgraphs, federation_version }
    }

    /// Skips the supergraph config, for there is none.
    pub fn skip_supergraph_resolution(self) -> (r: FederationVersionResolver<FromSubgraphs>)
        ensures
            r.federation_version == self.federation_version,
    {
        FederationVersionResolver { state: FromSubgraphs, federation_version: self.federation_version }
    }

    /// Resolves at once, without looking at subgraph SDLs: the user's version, else the latest
    /// Federation 2 version.
    pub fn resolve(self) -> (r: FederationVersion)
        ensures
            r == match self.federation_version {
                Some(v) => v,
                None => FederationVersion::LatestFedTwo,
            },
    {
        match self.federation_version {
            Some(v) => v,
            None => FederationVersion::LatestFedTwo,
        }
    }
}

impl FederationVersionResolver<FromSubgraphs> {
    /// A resolver at the subgraph stage, with the target federation version given.
    pub fn new(target_federation_version: Option<FederationVersion>) -> (r: FederationVersionResolver<FromSubgraphs>)
        ensures
            r.federation_version == target_federation_version,
    {
        FederationVersionResolver { state: FromSubgraphs, federation_version: target_federation_version }
    }

    /// The federation version the user defined, if any.
    pub fn target_federation_version(&self) -> (r: Option<FederationVersion>)
        ensures
            r == self.federation_version,
    {
        match &self.federation_version {
            Some(v) => Some(v.copy()),
            None => None,
        }
    }

    /// A copy of this resolver.
    pub fn copy(&self) -> (r: FederationVersionResolver<FromSubgraphs>)
        ensures
            r == *self,
    {
        FederationVersionResolver { state: self.state, federation_version: self.target_federation_version() }
    }

    /// Resolves the federation version against the user's choice and the subgraph SDLs: the
    /// user's version, unless it is a Federation 1 version while some subgraphs use `@link`,
    /// which is a mismatch naming those subgraphs; the latest Federation 2 version when the
    /// user made no choice.
    pub fn resolve(&self, subgraphs: &NameMap<FullyResolvedSubgraph>) -> (r: Result<
        FederationVersion,
        FederationVersionMismatch,
    >)
        ensures
            match r {
                Ok(v) => resolved_federation_version(
                    opt_federation_version_view(&self.federation_version),
                    fed_two_names(subgraphs.keys(), subgraphs.values()),
                ) == Some(v@) && (self.federation_version matches Some(s) ==> v == s),
                Err(m) => resolved_federation_version(
                    opt_federation_version_view(&self.federation_version),
                    fed_two_names(subgraphs.keys(), subgraphs.values()),
                ) is None && self.federation_version == Some(m.specified_federation_version)
                    && m.subgraph_names@.map_values(|n: String| n@) == fed_two_names(
                    subgraphs.keys(),
                    subgraphs.values(),
                ),
            },
    {
        let n = subgraphs.len();
        let mut names: Vec<String> = Vec::new();
        let mut i: usize = 0;
        while i < n
            invariant
                n == subgraphs.keys().len(),
                n == subgraphs.values().len(),
                i <= n,
                names@.map_values(|s: String| s@) == fed_two_names(
                    subgraphs.keys().take(i as int),
                    subgraphs.values().take(i as int),
                ),
            decreases n - i,
        {
            let ghost ks = subgraphs.keys();
            let ghost vs = subgraphs.values();
            proof {
                assert(ks.take(i + 1).drop_last() =~= ks.take(i as int));
                assert(vs.take(i + 1).drop_last() =~= vs.take(i as int));
            }
            if subgraphs.value_at(i).is_fed_two() {
                names.push(subgraphs.key_at(i).clone());
                proof {
                    assert(names@.map_values(|s: String| s@) =~= fed_two_names(ks.take(i as int), vs.take(i as int)).push(ks[i as int]));
                }
            }
            i = i + 1;
        }
        proof {
            assert(subgraphs.keys().take(n as int) =~= subgraphs.keys());
            assert(subgraphs.values().take(n as int) =~= subgraphs.values());
        }
        match &self.federation_version {
            Some(specified) => {
                if specified.is_fed_one() && names.len() > 0 {
                    Err(FederationVersionMismatch { specified_federation_version: specified.copy(), subgraph_names: names })
                } else {
                    Ok(specified.copy())
                }
            },
            None => Ok(FederationVersion::LatestFedTwo),
        }
    }
}

} // verus!

//! The difference between two versions of a supergraph config: which subgraphs came, went or
//! changed, and whether the federation version moved.
use vstd::prelude::*;

use crate::config::{
    opt_federation_version_view, subgraph_config_map_view, SubgraphConfig, SubgraphConfigView,
    SupergraphConfigYaml,
};
use crate::name_map::{entry_names, NameMap};
use crate::subgraph::ResolveSubgraphError;
use crate::version::FederationVersion;

verus! {

/// The error type of the supergraph-config crate; a diff is never refused with one.
#[verifier::external_type_specification]
#[verifier::external_body]
pub struct ExConfigError(apollo_federation_types::config::ConfigError);

/// The names of the subgraphs in `new` that `old` does not have, in name order.
pub open spec fn added_names(old: SupergraphConfigYaml, new: SupergraphConfigYaml) -> Seq<Seq<char>> {
    new.subgraphs.keys().filter(|k: Seq<char>| !old.subgraphs.key_set().contains(k))
}

/// The names of the subgraphs in `old` that `new` no longer has, in name order.
pub open spec fn removed_names(old: SupergraphConfigYaml, new: SupergraphConfigYaml) -> Seq<Seq<char>> {
    old.subgraphs.keys().filter(|k: Seq<char>| !new.subgraphs.key_set().contains(k))
}

/// Whether `name` is in both configs with a different config in each.
pub open spec fn changed_in(old: SupergraphConfigYaml, new: SupergraphConfigYaml, name: Seq<char>) -> bool {
    &&& old.subgraphs.key_set().contains(name)
    &&& new.subgraphs.key_set().contains(name)
    &&& old.subgraphs.spec_get(name).unwrap()@ != new.subgraphs.spec_get(name).unwrap()@
}

/// The names of the subgraphs both configs have but configure differently, in name order.
pub open spec fn changed_names(old: SupergraphConfigYaml, new: SupergraphConfigYaml) -> Seq<Seq<char>> {
    old.subgraphs.keys().filter(|k: Seq<char>| changed_in(old, new, k))
}

/// What changed between two supergraph configs.
#[derive(Debug)]
pub struct SupergraphConfigDiff {
    added: Vec<(String, SubgraphConfig)>,
    changed: Vec<(String, SubgraphConfig)>,
    removed: Vec<(String, Option<ResolveSubgraphError>)>,
    federation_version: Option<FederationVersion>,
    previously_broken: bool,
}

impl SupergraphConfigDiff {
    /// The subgraphs that are new, with their configs.
    pub closed spec fn spec_added(&self) -> Seq<(String, SubgraphConfig)> {
        self.added@
    }

    /// The subgraphs whose config changed, with their new configs.
    pub closed spec fn spec_changed(&self) -> Seq<(String, SubgraphConfig)> {
        self.changed@
    }

    /// The subgraphs that are gone, each with the error that kept it from resolving, if one did.
    pub closed spec fn spec_removed(&self) -> Seq<(String, Option<ResolveSubgraphError>)> {
        self.removed@
    }

    /// The new federation version, when it changed.
    pub closed spec fn spec_federation_version(&self) -> Option<FederationVersion> {
        self.federation_version
    }

    /// Whether the config before this change could not be read.
    pub closed spec fn spec_previously_broken(&self) -> bool {
        self.previously_broken
    }

    /// Whether this is the diff from `old` to `new`: the subgraphs added, changed and removed, in
    /// name order, with the configs in `new` and the errors `resolution_errors` holds for the
    /// removed ones; `new`'s federation version where it differs from `old`'s.
    pub open spec fn describes(
        &self,
        old: SupergraphConfigYaml,
        new: SupergraphConfigYaml,
        resolution_errors: NameMap<ResolveSubgraphError>,
        previously_broken: bool,
    ) -> bool {
        &&& entry_names(self.spec_added()) == added_names(old, new)
        &&& forall|i: int| 0 <= i < self.spec_added().len() ==> #[trigger] self.spec_added()[i].1@
            == new.subgraphs.spec_get(self.spec_added()[i].0@).unwrap()@
        &&& entry_names(self.spec_changed()) == changed_names(old, new)
        &&& forall|i: int| 0 <= i < self.spec_changed().len() ==> #[trigger] self.spec_changed()[i].1@
            == new.subgraphs.spec_get(self.spec_changed()[i].0@).unwrap()@
        &&& entry_names(self.spec_removed()) == removed_names(old, new)
        &&& forall|i: int| 0 <= i < self.spec_removed().len() ==> #[trigger] self.spec_removed()[i].1
            == resolution_errors.spec_get(self.spec_removed()[i].0@)
        &&& self.spec_federation_version() == if opt_federation_version_view(&old.federation_version)
            != opt_federation_version_view(&new.federation_version) {
            new.federation_version
        } else {
            None
        }
        &&& self.spec_previously_broken() == previously_broken
    }

    /// Compares two supergraph configs. A subgraph only `new` has is added, with its config; one
    /// only `old` has is removed, with the error `resolution_errors` holds for it, if any; one
    /// both have with different configs is changed, with its config in `new`. Each list is in
    /// name order. The federation version is `new`'s where it differs from `old`'s.
    pub fn new(
        old: SupergraphConfigYaml,
        new: SupergraphConfigYaml,
        resolution_errors: NameMap<ResolveSubgraphError>,
        previously_broken: bool,
    ) -> (r: Result<SupergraphConfigDiff, apollo_federation_types::config::ConfigError>)
        ensures
            r matches Ok(d) && d.describes(old, new, resolution_errors, previously_broken),
    {
        Ok(Self::compare(old, new, resolution_errors, previously_broken))
    }

    /// The diff from `old` to `new`, as [`SupergraphConfigDiff::new`] gives it.
    pub fn compare(
        old: SupergraphConfigYaml,
        new: SupergraphConfigYaml,
        resolution_errors: NameMap<ResolveSubgraphError>,
        previously_broken: bool,
    ) -> (d: SupergraphConfigDiff)
        ensures
            d.describes(old, new, resolution_errors, previously_broken),
    {
        proof {
            use_type_invariant(&old.subgraphs);
            use_type_invariant(&new.subgraphs);
        }
        let ghost added_pred = |k: Seq<char>| !old.subgraphs.key_set().contains(k);
        let ghost removed_pred = |k: Seq<char>| !new.subgraphs.key_set().contains(k);
        let ghost changed_pred = |k: Seq<char>| changed_in(old, new, k);
        let mut added: Vec<(String, SubgraphConfig)> = Vec::new();
        let mut i: usize = 0;
        while i < new.subgraphs.len()
            invariant
                new.subgraphs.is_sorted(),
                i <= new.subgraphs.keys().len(),
                added_pred == (|k: Seq<char>| !old.subgraphs.key_set().contains(k)),
                entry_names(added@) == new.subgraphs.keys().take(i as int).filter(added_pred),
                forall|j: int| 0 <= j < added@.len() ==> #[trigger] added@[j].1@
                    == new.subgraphs.spec_get(added@[j].0@).unwrap()@,
            decreases new.subgraphs.keys().len() - i,
        {
            let name = new.subgraphs.key_at(i);
            let ghost before = added@;
            proof {
                reveal(Seq::filter);
                new.subgraphs.lemma_get_at(i as int);
                assert(new.subgraphs.keys().take(i + 1).drop_last() =~= new.subgraphs.keys().take(
                    i as int,
                ));
            }
            if !old.subgraphs.contains_key(name) {
                let config = new.subgraphs.value_at(i).copy();
                added.push((name.clone(), config));
                proof {
                    assert(entry_names(added@) =~= entry_names(before).push(name@));
                }
            }
            i = i + 1;
        }
        proof {
            assert(new.subgraphs.keys().take(new.subgraphs.keys().len() as int) =~= new.subgraphs.keys());
        }
        let mut changed: Vec<(String, SubgraphConfig)> = Vec::new();
        let mut removed: Vec<(String, Option<ResolveSubgraphError>)> = Vec::new();
        let mut i: usize = 0;
        while i < old.subgraphs.len()
            invariant
                old.subgraphs.is_sorted(),
                new.subgraphs.is_sorted(),
                i <= old.subgraphs.keys().len(),
                removed_pred == (|k: Seq<char>| !new.subgraphs.key_set().contains(k)),
                changed_pred == (|k: Seq<char>| changed_in(old, new, k)),
                entry_names(changed@) == old.subgraphs.keys().take(i as int).filter(changed_pred),
                forall|j: int| 0 <= j < changed@.len() ==> #[trigger] changed@[j].1@
                    == new.subgraphs.spec_get(changed@[j].0@).unwrap()@,
                entry_names(removed@) == old.subgraphs.keys().take(i as int).filter(removed_pred),
                forall|j: int| 0 <= j < removed@.len() ==> #[trigger] removed@[j].1
                    == resolution_errors.spec_get(removed@[j].0@),
            decreases old.subgraphs.keys().len() - i,
        {
            let name = old.subgraphs.key_at(i);
            let ghost changed_before = changed@;
            let ghost removed_before = removed@;
            proof {
                reveal(Seq::filter);
                old.subgraphs.lemma_get_at(i as int);
                assert(old.subgraphs.keys().take(i + 1).drop_last() =~= old.subgraphs.keys().take(
                    i as int,
                ));
            }
            match new.subgraphs.get(name) {
                Some(new_config) => {
                    if !old.subgraphs.value_at(i).same_as(new_config) {
                        changed.push((name.clone(), new_config.copy()));
                        proof {
                            assert(entry_names(changed@) =~= entry_names(changed_before).push(name@));
                        }
                    }
                },
                None => {
                    let error = match resolution_errors.get(name) {
                        Some(e) => Some(e.copy()),
                        None => None,
                    };
                    removed.push((name.clone(), error));
                    proof {
                        assert(entry_names(removed@) =~= entry_names(removed_before).push(name@));
                    }
                },
            }
            i = i + 1;
        }
        proof {
            assert(old.subgraphs.keys().take(old.subgraphs.keys().len() as int) =~= old.subgraphs.keys());
        }
        let federation_version = if federation_versions_equal(
            &old.federation_version,
            &new.federation_version,
        ) {
            None
        } else {
            new.federation_version
        };
        SupergraphConfigDiff { added, changed, removed, federation_version, previously_broken }
    }

    /// Gives up the parts of this diff: the added, changed and removed subgraphs, the new
    /// federation version, and whether the config before was broken.
    pub fn into_parts(self) -> (r: (
        Vec<(String, SubgraphConfig)>,
        Vec<(String, SubgraphConfig)>,
        Vec<(String, Option<ResolveSubgraphError>)>,
        Option<FederationVersion>,
        bool,
    ))
        ensures
            r.0@ == self.spec_added(),
            r.1@ == self.spec_changed(),
            r.2@ == self.spec_removed(),
            r.3 == self.spec_federation_version(),
            r.4 == self.spec_previously_broken(),
    {
        (self.added, self.changed, self.removed, self.federation_version, self.previously_broken)
    }

    /// Whether no subgraph was added, changed or removed.
    pub fn is_empty(&self) -> (b: bool)
        ensures
            b == (self.spec_added().len() == 0 && self.spec_changed().len() == 0
                && self.spec_removed().len() == 0),
    {
        self.added.len() == 0 && self.changed.len() == 0 && self.removed.len() == 0
    }

    /// The subgraphs that are new, with their configs.
    pub fn added(&self) -> (r: &Vec<(String, SubgraphConfig)>)
        ensures
            r@ == self.spec_added(),
    {
        &self.added
    }

    /// The subgraphs whose config changed, with their new configs.
    pub fn changed(&self) -> (r: &Vec<(String, SubgraphConfig)>)
        ensures
            r@ == self.spec_changed(),
    {
        &self.changed
    }

    /// The subgraphs that are gone, each with the error that kept it from resolving, if one did.
    pub fn removed(&self) -> (r: &Vec<(String, Option<ResolveSubgraphError>)>)
        ensures
            r@ == self.spec_removed(),
    {
        &self.removed
    }

    /// The new federation version, when it changed.
    pub fn federation_version(&self) -> (r: &Option<FederationVersion>)
        ensures
            *r == self.spec_federation_version(),
    {
        &self.federation_version
    }

    /// Whether the config before this change could not be read.
    pub fn previously_broken(&self) -> (b: bool)
        ensures
            b == self.spec_previously_broken(),
    {
        self.previously_broken
    }
}

/// Whether two optional federation versions are the same.
pub fn federation_versions_equal(a: &Option<FederationVersion>, b: &Option<FederationVersion>) -> (r: bool)
    ensures
        r == (opt_federation_version_view(a) == opt_federation_version_view(b)),
{
    match (a, b) {
        (None, None) => true,
        (Some(x), Some(y)) => match (x, y) {
            (FederationVersion::LatestFedOne, FederationVersion::LatestFedOne) => true,
            (FederationVersion::LatestFedTwo, FederationVersion::LatestFedTwo) => true,
            (FederationVersion::ExactFedOne(v), FederationVersion::ExactFedOne(w)) => v.same_as(w),
            (FederationVersion::ExactFedTwo(v), FederationVersion::ExactFedTwo(w)) => v.same_as(w),
            _ => false,
        },
        _ => false,
    }
}

/// The subgraph configs a list of entries holds, name by name.
pub open spec fn entries_view(s: Seq<(String, SubgraphConfig)>) -> Map<Seq<char>, SubgraphConfigView> {
    Map::new(
        |k: Seq<char>| entry_names(s).contains(k),
        |k: Seq<char>| s[entry_names(s).index_of(k)].1@,
    )
}

/// The subgraph configs `base` holds once `diff` is applied to it: the removed subgraphs taken
/// out, the added and changed ones put in with their configs.
pub open spec fn apply_diff(
    base: Map<Seq<char>, SubgraphConfigView>,
    diff: SupergraphConfigDiff,
) -> Map<Seq<char>, SubgraphConfigView> {
    base.remove_keys(entry_names(diff.spec_removed()).to_set()).union_prefer_right(
        entries_view(diff.spec_added()),
    ).union_prefer_right(entries_view(diff.spec_changed()))
}

/// A name is kept by a filter exactly when it is in the sequence and passes the filter.
proof fn lemma_filter_contains_iff(s: Seq<Seq<char>>, p: spec_fn(Seq<char>) -> bool, k: Seq<char>)
    ensures
        s.filter(p).contains(k) <==> (s.contains(k) && p(k)),
{
    broadcast use vstd::seq_lib::group_filter_ensures;

    if s.filter(p).contains(k) {
        s.lemma_filter_contains_rev(p, k);
        let j = choose|j: int| 0 <= j < s.filter(p).len() && s.filter(p)[j] == k;
        s.lemma_filter_pred(p, j);
    }
    if s.contains(k) && p(k) {
        let i = s.index_of(k);
        s.lemma_filter_contains(p, i);
    }
}

/// Each name in a diff's lists is in the list exactly when the configs call for it: added when
/// only `new` has it, removed when only `old` has it, changed when both have it configured
/// differently.
pub proof fn lemma_diff_classifies_names(
    d: SupergraphConfigDiff,
    old: SupergraphConfigYaml,
    new: SupergraphConfigYaml,
    resolution_errors: NameMap<ResolveSubgraphError>,
    previously_broken: bool,
    k: Seq<char>,
)
    requires
        d.describes(old, new, resolution_errors, previously_broken),
    ensures
        entry_names(d.spec_added()).contains(k) <==> (new.subgraphs.key_set().contains(k)
            && !old.subgraphs.key_set().contains(k)),
        entry_names(d.spec_removed()).contains(k) <==> (old.subgraphs.key_set().contains(k)
            && !new.subgraphs.key_set().contains(k)),
        entry_names(d.spec_changed()).contains(k) <==> changed_in(old, new, k),
{
    lemma_filter_contains_iff(new.subgraphs.keys(), |k: Seq<char>| !old.subgraphs.key_set().contains(k), k);
    lemma_filter_contains_iff(old.subgraphs.keys(), |k: Seq<char>| !new.subgraphs.key_set().contains(k), k);
    lemma_filter_contains_iff(old.subgraphs.keys(), |k: Seq<char>| changed_in(old, new, k), k);
}

/// Applying the diff from `old` to `new` to the subgraphs of `old` gives the subgraphs of `new`.
pub proof fn lemma_apply_diff_gives_new(
    d: SupergraphConfigDiff,
    old: SupergraphConfigYaml,
    new: SupergraphConfigYaml,
    resolution_errors: NameMap<ResolveSubgraphError>,
    previously_broken: bool,
)
    requires
        d.describes(old, new, resolution_errors, previously_broken),
    ensures
        apply_diff(subgraph_config_map_view(&old.subgraphs), d) == subgraph_config_map_view(&new.subgraphs),
{
    let base = subgraph_config_map_view(&old.subgraphs);
    let target = subgraph_config_map_view(&new.subgraphs);
    let result = apply_diff(base, d);
    assert forall|k: Seq<char>| #[trigger] result.dom().contains(k) == target.dom().contains(k) by {
        lemma_diff_classifies_names(d, old, new, resolution_errors, previously_broken, k);
    }
    assert forall|k: Seq<char>| #[trigger] result.dom().contains(k) implies result[k] == target[k] by {
        lemma_diff_classifies_names(d, old, new, resolution_errors, previously_broken, k);
        if entry_names(d.spec_changed()).contains(k) {
            let j = entry_names(d.spec_changed()).index_of(k);
            assert(d.spec_changed()[j].0@ == k);
        } else if entry_names(d.spec_added()).contains(k) {
            let j = entry_names(d.spec_added()).index_of(k);
            assert(d.spec_added()[j].0@ == k);
        }
    }
    assert(result =~= target);
}

/// Comparing a config with one that configures the same subgraphs the same way, at the same
/// federation version, finds nothing added, changed or removed, and no new federation version.
pub proof fn lemma_diff_of_same_config_is_empty(
    d: SupergraphConfigDiff,
    old: SupergraphConfigYaml,
    new: SupergraphConfigYaml,
    resolution_errors: NameMap<ResolveSubgraphError>,
    previously_broken: bool,
)
    requires
        d.describes(old, new, resolution_errors, previously_broken),
        subgraph_config_map_view(&old.subgraphs) == subgraph_config_map_view(&new.subgraphs),
        opt_federation_version_view(&old.federation_version) == opt_federation_version_view(
            &new.federation_version,
        ),
    ensures
        d.spec_added().len() == 0,
        d.spec_changed().len() == 0,
        d.spec_removed().len() == 0,
        d.spec_federation_version() is None,
{
    let m = subgraph_config_map_view(&old.subgraphs);
    assert forall|k: Seq<char>| old.subgraphs.key_set().contains(k) == new.subgraphs.key_set().contains(k) by {
        assert(m.dom().contains(k) == old.subgraphs.key_set().contains(k));
    }
    if d.spec_added().len() > 0 {
        lemma_diff_classifies_names(d, old, new, resolution_errors, previously_broken, d.spec_added()[0].0@);
        assert(entry_names(d.spec_added())[0] == d.spec_added()[0].0@);
    }
    if d.spec_removed().len() > 0 {
        lemma_diff_classifies_names(d, old, new, resolution_errors, previously_broken, d.spec_removed()[0].0@);
        assert(entry_names(d.spec_removed())[0] == d.spec_removed()[0].0@);
    }
    if d.spec_changed().len() > 0 {
        let k = d.spec_changed()[0].0@;
        lemma_diff_classifies_names(d, old, new, resolution_errors, previously_broken, k);
        assert(entry_names(d.spec_changed())[0] == k);
        assert(m[k] == old.subgraphs.spec_get(k).unwrap()@);
        assert(subgraph_config_map_view(&new.subgraphs)[k] == new.subgraphs.spec_get(k).unwrap()@);
    }
}

/// A diff from `old` to one config is the diff from `old` to any config that holds the same
/// subgraphs, configured the same way, at the same federation version.
pub proof fn lemma_describes_same_config(
    d: SupergraphConfigDiff,
    old: SupergraphConfigYaml,
    new: SupergraphConfigYaml,
    same: SupergraphConfigYaml,
    resolution_errors: NameMap<ResolveSubgraphError>,
    previously_broken: bool,
)
    requires
        d.describes(old, new, resolution_errors, previously_broken),
        new.subgraphs.keys() == same.subgraphs.keys(),
        subgraph_config_map_view(&new.subgraphs) == subgraph_config_map_view(&same.subgraphs),
        new.federation_version == same.federation_version,
    ensures
        d.describes(old, same, resolution_errors, previously_broken),
{
    let m = subgraph_config_map_view(&new.subgraphs);
    assert forall|k: Seq<char>| new.subgraphs.key_set().contains(k) == same.subgraphs.key_set().contains(k) by {}
    assert forall|k: Seq<char>| #[trigger] new.subgraphs.key_set().contains(k) implies new.subgraphs.spec_get(k).unwrap()@
        == same.subgraphs.spec_get(k).unwrap()@ by {
        assert(m.dom().contains(k));
        assert(subgraph_config_map_view(&same.subgraphs)[k] == same.subgraphs.spec_get(k).unwrap()@);
    }
    let p1 = |k: Seq<char>| !old.subgraphs.key_set().contains(k);
    assert(added_names(old, new) == added_names(old, same));
    let c1 = |k: Seq<char>| changed_in(old, new, k);
    let c2 = |k: Seq<char>| changed_in(old, same, k);
    assert(c1 =~= c2);
    assert(changed_names(old, new) == changed_names(old, same));
    let q1 = |k: Seq<char>| !new.subgraphs.key_set().contains(k);
    let q2 = |k: Seq<char>| !same.subgraphs.key_set().contains(k);
    assert(q1 =~= q2);
    assert(removed_names(old, new) == removed_names(old, same));
    assert forall|i: int| 0 <= i < d.spec_added().len() implies #[trigger] d.spec_added()[i].1@
        == same.subgraphs.spec_get(d.spec_added()[i].0@).unwrap()@ by {
        let k = d.spec_added()[i].0@;
        assert(entry_names(d.spec_added())[i] == k);
        lemma_diff_classifies_names(d, old, new, resolution_errors, previously_broken, k);
    }
    assert forall|i: int| 0 <= i < d.spec_changed().len() implies #[trigger] d.spec_changed()[i].1@
        == same.subgraphs.spec_get(d.spec_changed()[i].0@).unwrap()@ by {
        let k = d.spec_changed()[i].0@;
        assert(entry_names(d.spec_changed())[i] == k);
        lemma_diff_classifies_names(d, old, new, resolution_errors, previously_broken, k);
    }
}

} // verus!

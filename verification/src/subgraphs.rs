//! The set of subgraphs a composition runs on: each name with its SDL.
use vstd::prelude::*;

use crate::config::{SchemaSource, SchemaSourceView, SubgraphConfig, SupergraphConfigYaml};
use crate::name_map::NameMap;

verus! {

/// The SDL held under each name of a map of strings.
pub open spec fn sdl_map(m: &NameMap<String>) -> Map<Seq<char>, Seq<char>> {
    Map::new(|k: Seq<char>| m.key_set().contains(k), |k: Seq<char>| m.spec_get(k).unwrap()@)
}

/// A subgraph whose schema source is not SDL written inline.
#[derive(Debug)]
pub struct InvalidSchemaSource {
    pub schema_source: SchemaSource,
}

/// The subgraphs a composition runs on, each resolved to its SDL.
#[derive(Debug)]
pub struct FullyResolvedSubgraphs {
    subgraphs: NameMap<String>,
}

/// Whether a subgraph config carries its SDL inline.
pub open spec fn has_inline_sdl(c: SubgraphConfig) -> bool {
    c.schema is Sdl
}

/// The schema sources of the subgraphs of `config` that do not carry their SDL inline, in name
/// order.
pub open spec fn invalid_sources(config: SupergraphConfigYaml) -> Seq<SchemaSourceView> {
    config.subgraphs.values().filter(|c: SubgraphConfig| !has_inline_sdl(c)).map_values(
        |c: SubgraphConfig| c.schema@,
    )
}

/// The SDL written inline for each subgraph of `config`.
pub open spec fn inline_sdls(config: SupergraphConfigYaml) -> Map<Seq<char>, Seq<char>> {
    Map::new(
        |k: Seq<char>| config.subgraphs.key_set().contains(k),
        |k: Seq<char>| config.subgraphs.spec_get(k).unwrap().schema->Sdl_sdl@,
    )
}

/// Whether `config` describes the subgraphs `sdls`: each with its SDL inline and no routing
/// URL, and no federation version.
pub open spec fn describes_sdls(config: SupergraphConfigYaml, sdls: Map<Seq<char>, Seq<char>>) -> bool {
    &&& config.federation_version is None
    &&& config.subgraphs.key_set() == sdls.dom()
    &&& forall|k: Seq<char>| #[trigger] config.subgraphs.key_set().contains(k) ==> ({
        let c = config.subgraphs.spec_get(k).unwrap();
        c.routing_url is None && c.schema is Sdl && c.schema->Sdl_sdl@ == sdls[k]
    })
}

impl View for FullyResolvedSubgraphs {
    type V = Map<Seq<char>, Seq<char>>;

    closed spec fn view(&self) -> Map<Seq<char>, Seq<char>> {
        sdl_map(&self.subgraphs)
    }
}

impl FullyResolvedSubgraphs {
    /// The subgraphs of `subgraphs`, each name with its SDL.
    pub fn new(subgraphs: NameMap<String>) -> (r: FullyResolvedSubgraphs)
        ensures
            r@ == sdl_map(&subgraphs),
    {
        FullyResolvedSubgraphs { subgraphs }
    }

    /// Sets the SDL of the subgraph `name`, adding the subgraph if it is not there.
    pub fn upsert_subgraph(&mut self, name: String, schema: String)
        ensures
            final(self)@ == old(self)@.insert(name@, schema@),
    {
        let ghost n = name@;
        let ghost s = schema@;
        self.subgraphs.insert(name, schema);
        proof {
            assert(sdl_map(&self.subgraphs) =~= old(self)@.insert(n, s));
        }
    }

    /// Takes the subgraph `name` out, if it is there.
    pub fn remove_subgraph(&mut self, name: &String)
        ensures
            final(self)@ == old(self)@.remove(name@),
    {
        self.subgraphs.remove(name);
        proof {
            assert(sdl_map(&self.subgraphs) =~= old(self)@.remove(name@));
        }
    }

    /// The subgraphs of a supergraph config whose subgraphs all carry their SDL inline; where
    /// some do not, their schema sources, in name order.
    pub fn try_from(value: SupergraphConfigYaml) -> (r: Result<FullyResolvedSubgraphs, Vec<InvalidSchemaSource>>)
        ensures
            invalid_sources(value).len() == 0 ==> (r matches Ok(s) && s@ == inline_sdls(value)),
            invalid_sources(value).len() > 0 ==> (r matches Err(e) && e@.map_values(
                |i: InvalidSchemaSource| i.schema_source@,
            ) == invalid_sources(value)),
    {
        proof {
            use_type_invariant(&value.subgraphs);
        }
        let ghost pred = |c: SubgraphConfig| !has_inline_sdl(c);
        let ghost values = value.subgraphs.values();
        let mut errors: Vec<InvalidSchemaSource> = Vec::new();
        let mut sdls: NameMap<String> = NameMap::new();
        let mut i: usize = 0;
        while i < value.subgraphs.len()
            invariant
                value.subgraphs.is_sorted(),
                values == value.subgraphs.values(),
                i <= values.len(),
                pred == (|c: SubgraphConfig| !has_inline_sdl(c)),
                errors@.map_values(|e: InvalidSchemaSource| e.schema_source@) == values.take(
                    i as int,
                ).filter(pred).map_values(|c: SubgraphConfig| c.schema@),
                forall|k: Seq<char>| #[trigger] sdls.key_set().contains(k) == (value.subgraphs.keys().contains(k)
                    && value.subgraphs.keys().index_of(k) < i && has_inline_sdl(value.subgraphs.spec_get(k).unwrap())),
                forall|k: Seq<char>| #[trigger] sdls.key_set().contains(k) ==> sdls.spec_get(k).unwrap()@
                    == value.subgraphs.spec_get(k).unwrap().schema->Sdl_sdl@,
            decreases values.len() - i,
        {
            let ghost before = errors@;
            let ghost sdls_before = sdls;
            proof {
                reveal(Seq::filter);
                value.subgraphs.lemma_get_at(i as int);
                assert(values.take(i + 1).drop_last() =~= values.take(i as int));
            }
            let name = value.subgraphs.key_at(i);
            let config = value.subgraphs.value_at(i);
            match &config.schema {
                SchemaSource::Sdl { sdl } => {
                    sdls.insert(name.clone(), sdl.clone());
                    proof {
                        assert forall|k: Seq<char>| #[trigger] sdls.key_set().contains(k) == (
                        value.subgraphs.keys().contains(k) && value.subgraphs.keys().index_of(k) < i + 1
                            && has_inline_sdl(value.subgraphs.spec_get(k).unwrap())) by {
                            assert(sdls_before.key_set().contains(k) == (value.subgraphs.keys().contains(k)
                                && value.subgraphs.keys().index_of(k) < i && has_inline_sdl(
                                value.subgraphs.spec_get(k).unwrap(),
                            )));
                        }
                        assert(values.take(i + 1).filter(pred) == values.take(i as int).filter(pred));
                    }
                },
                _ => {
                    errors.push(InvalidSchemaSource { schema_source: config.schema.copy() });
                    proof {
                        assert(values.take(i + 1).filter(pred) == values.take(i as int).filter(
                            pred,
                        ).push(values[i as int]));
                        assert(errors@.map_values(|e: InvalidSchemaSource| e.schema_source@) =~= before.map_values(
                            |e: InvalidSchemaSource| e.schema_source@,
                        ).push(values[i as int].schema@));
                        assert(values.take(i + 1).filter(pred).map_values(|c: SubgraphConfig| c.schema@) =~= values.take(
                            i as int,
                        ).filter(pred).map_values(|c: SubgraphConfig| c.schema@).push(values[i as int].schema@));
                        assert forall|k: Seq<char>| #[trigger] sdls.key_set().contains(k) == (
                        value.subgraphs.keys().contains(k) && value.subgraphs.keys().index_of(k) < i + 1
                            && has_inline_sdl(value.subgraphs.spec_get(k).unwrap())) by {
                            assert(sdls_before.key_set().contains(k) == (value.subgraphs.keys().contains(k)
                                && value.subgraphs.keys().index_of(k) < i && has_inline_sdl(
                                value.subgraphs.spec_get(k).unwrap(),
                            )));
                        }
                    }
                },
            }
            i = i + 1;
        }
        proof {
            assert(values.take(values.len() as int) =~= values);
        }
        if errors.len() == 0 {
            let r = FullyResolvedSubgraphs { subgraphs: sdls };
            proof {
                assert forall|k: Seq<char>| #[trigger] value.subgraphs.key_set().contains(k) implies has_inline_sdl(
                    value.subgraphs.spec_get(k).unwrap(),
                ) by {
                    let j = value.subgraphs.keys().index_of(k);
                    value.subgraphs.lemma_get_at(j);
                    if !has_inline_sdl(values[j]) {
                        values.lemma_filter_contains(pred, j);
                        assert(values.filter(pred).len() > 0);
                    }
                }
                assert(r@ =~= Map::new(
                    |k: Seq<char>| value.subgraphs.key_set().contains(k),
                    |k: Seq<char>| value.subgraphs.spec_get(k).unwrap().schema->Sdl_sdl@,
                ));
            }
            Ok(r)
        } else {
            Err(errors)
        }
    }

    /// The supergraph config that describes these subgraphs: each with its SDL inline and no
    /// routing URL, and no federation version.
    pub fn into_supergraph_config(self) -> (r: SupergraphConfigYaml)
        ensures
            describes_sdls(r, self@),
    {
        proof {
            use_type_invariant(&self.subgraphs);
        }
        let mut subgraphs: NameMap<SubgraphConfig> = NameMap::new();
        let mut i: usize = 0;
        while i < self.subgraphs.len()
            invariant
                self.subgraphs.is_sorted(),
                i <= self.subgraphs.keys().len(),
                forall|k: Seq<char>| #[trigger] subgraphs.key_set().contains(k) == (self.subgraphs.keys().contains(k)
                    && self.subgraphs.keys().index_of(k) < i),
                forall|k: Seq<char>| #[trigger] subgraphs.key_set().contains(k) ==> ({
                    let c = subgraphs.spec_get(k).unwrap();
                    c.routing_url is None && c.schema is Sdl && c.schema->Sdl_sdl@
                        == self.subgraphs.spec_get(k).unwrap()@
                }),
            decreases self.subgraphs.keys().len() - i,
        {
            let ghost before = subgraphs;
            proof {
                self.subgraphs.lemma_get_at(i as int);
            }
            let name = self.subgraphs.key_at(i);
            let sdl = self.subgraphs.value_at(i);
            subgraphs.insert(
                name.clone(),
                SubgraphConfig { routing_url: None, schema: SchemaSource::Sdl { sdl: sdl.clone() } },
            );
            proof {
                assert forall|k: Seq<char>| #[trigger] subgraphs.key_set().contains(k) == (self.subgraphs.keys().contains(
                    k,
                ) && self.subgraphs.keys().index_of(k) < i + 1) by {
                    assert(before.key_set().contains(k) == (self.subgraphs.keys().contains(k)
                        && self.subgraphs.keys().index_of(k) < i));
                }
            }
            i = i + 1;
        }
        proof {
            assert forall|k: Seq<char>| #[trigger] subgraphs.key_set().contains(k) == self@.dom().contains(k) by {
                if self.subgraphs.keys().contains(k) {
                    let j = self.subgraphs.keys().index_of(k);
                    assert(self.subgraphs.keys()[j] == k);
                }
            }
            assert(subgraphs.key_set() =~= self@.dom());
        }
        SupergraphConfigYaml { subgraphs, federation_version: None }
    }
}

/// Reading back the supergraph config that describes a set of subgraphs
/// ([`FullyResolvedSubgraphs::into_supergraph_config`]) with
/// [`FullyResolvedSubgraphs::try_from`] succeeds and gives the same subgraphs.
pub proof fn lemma_config_round_trip(config: SupergraphConfigYaml, sdls: Map<Seq<char>, Seq<char>>)
    requires
        config.subgraphs.is_sorted(),
        describes_sdls(config, sdls),
    ensures
        invalid_sources(config).len() == 0,
        inline_sdls(config) == sdls,
{
    let values = config.subgraphs.values();
    let pred = |c: SubgraphConfig| !has_inline_sdl(c);
    if values.filter(pred).len() > 0 {
        values.lemma_filter_pred(pred, 0);
        let x = values.filter(pred)[0];
        assert(values.filter(pred).contains(x));
        values.lemma_filter_contains_rev(pred, x);
        let i = values.index_of(x);
        config.subgraphs.lemma_get_at(i);
        let k = config.subgraphs.keys()[i];
        assert(config.subgraphs.key_set().contains(k));
        assert(false);
    }
    assert(inline_sdls(config) =~= sdls);
}

} // verus!

//! The supergraph config a user writes: its subgraphs, each with a routing URL and a schema
//! source, and an optional federation version.
use vstd::prelude::*;

use crate::name_map::NameMap;
use crate::text::{copy_opt_string, opt_string_view};
use crate::version::{FederationVersion, FederationVersionView};

verus! {

/// The name/value pairs of a map of strings, in name order.
pub open spec fn string_pairs(m: &NameMap<String>) -> Seq<(Seq<char>, Seq<char>)> {
    Seq::new(m.keys().len(), |i: int| (m.keys()[i], m.values()[i]@))
}

/// Where the SDL of a subgraph comes from.
#[derive(Debug)]
pub enum SchemaSource {
    /// A schema file, by path.
    File { file: String },
    /// Introspection of a running subgraph, by its URL, with the headers to send.
    SubgraphIntrospection { subgraph_url: String, introspection_headers: Option<NameMap<String>> },
    /// A subgraph published to the graph registry, by graph ref and subgraph name.
    Subgraph { graphref: String, subgraph: String },
    /// SDL written into the config.
    Sdl { sdl: String },
}

/// The mathematical value of a [`SchemaSource`].
pub enum SchemaSourceView {
    File { file: Seq<char> },
    SubgraphIntrospection {
        subgraph_url: Seq<char>,
        introspection_headers: Option<Seq<(Seq<char>, Seq<char>)>>,
    },
    Subgraph { graphref: Seq<char>, subgraph: Seq<char> },
    Sdl { sdl: Seq<char> },
}

impl View for SchemaSource {
    type V = SchemaSourceView;

    open spec fn view(&self) -> SchemaSourceView {
        match self {
            SchemaSource::File { file } => SchemaSourceView::File { file: file@ },
            SchemaSource::SubgraphIntrospection { subgraph_url, introspection_headers } => {
                SchemaSourceView::SubgraphIntrospection {
                    subgraph_url: subgraph_url@,
                    introspection_headers: match introspection_headers {
                        Some(h) => Some(string_pairs(h)),
                        None => None,
                    },
                }
            },
            SchemaSource::Subgraph { graphref, subgraph } => SchemaSourceView::Subgraph {
                graphref: graphref@,
                subgraph: subgraph@,
            },
            SchemaSource::Sdl { sdl } => SchemaSourceView::Sdl { sdl: sdl@ },
        }
    }
}

/// Whether two maps of strings hold the same names with the same values.
pub fn string_maps_equal(a: &NameMap<String>, b: &NameMap<String>) -> (r: bool)
    ensures
        r == (string_pairs(a) == string_pairs(b)),
{
    let n = a.len();
    if n != b.len() {
        proof {
            assert(string_pairs(a).len() != string_pairs(b).len());
        }
        return false;
    }
    let mut i: usize = 0;
    while i < n
        invariant
            n == a.keys().len(),
            n == b.keys().len(),
            i <= n,
            forall|j: int| 0 <= j < i ==> string_pairs(a)[j] == string_pairs(b)[j],
        decreases n - i,
    {
        if *a.key_at(i) != *b.key_at(i) || *a.value_at(i) != *b.value_at(i) {
            proof {
                assert(string_pairs(a)[i as int] != string_pairs(b)[i as int]);
            }
            return false;
        }
        i = i + 1;
    }
    proof {
        assert(string_pairs(a) =~= string_pairs(b));
    }
    true
}

/// A copy of a map of strings.
pub fn copy_string_map(m: &NameMap<String>) -> (r: NameMap<String>)
    ensures
        string_pairs(&r) == string_pairs(m),
{
    let mut r: NameMap<String> = NameMap::new();
    let n = m.len();
    let mut i: usize = 0;
    while i < n
        invariant
            n == m.keys().len(),
            i <= n,
            r.keys() == m.keys().take(i as int),
            forall|j: int| 0 <= j < i ==> (#[trigger] r.values()[j])@ == m.values()[j]@,
            r.values().len() == i,
        decreases n - i,
    {
        proof {
            use_type_invariant(m);
            use_type_invariant(&r);
        }
        let k = m.key_at(i).clone();
        let v = m.value_at(i).clone();
        let ghost before = r;
        proof {
            // names after the ones copied so far come after them in name order
            assert forall|j: int| 0 <= j < r.keys().len() implies crate::name_map::name_before(
                #[trigger] r.keys()[j],
                k@,
            ) by {
                assert(r.keys()[j] == m.keys()[j]);
            }
            assert(!r.keys().contains(k@)) by {
                if r.keys().contains(k@) {
                    let q = r.keys().index_of(k@);
                    crate::name_map::lemma_name_before_asymmetric(r.keys()[q], k@);
                }
            }
        }
        r.insert_last(k, v);
        proof {
            assert(r.keys() =~= m.keys().take(i + 1));
        }
        i = i + 1;
    }
    proof {
        assert(r.keys() =~= m.keys());
        assert(string_pairs(&r) =~= string_pairs(m));
    }
    r
}

impl SchemaSource {
    /// Whether two schema sources are the same.
    pub fn same_as(&self, other: &SchemaSource) -> (r: bool)
        ensures
            r == (self@ == other@),
    {
        match (self, other) {
            (SchemaSource::File { file: a }, SchemaSource::File { file: b }) => *a == *b,
            (
                SchemaSource::SubgraphIntrospection {
                    subgraph_url: a,
                    introspection_headers: ha,
                },
                SchemaSource::SubgraphIntrospection {
                    subgraph_url: b,
                    introspection_headers: hb,
                },
            ) => {
                if *a != *b {
                    return false;
                }
                match (ha, hb) {
                    (Some(x), Some(y)) => string_maps_equal(x, y),
                    (None, None) => true,
                    _ => false,
                }
            },
            (
                SchemaSource::Subgraph { graphref: ga, subgraph: sa },
                SchemaSource::Subgraph { graphref: gb, subgraph: sb },
            ) => *ga == *gb && *sa == *sb,
            (SchemaSource::Sdl { sdl: a }, SchemaSource::Sdl { sdl: b }) => *a == *b,
            _ => false,
        }
    }

    /// A copy of this schema source.
    pub fn copy(&self) -> (r: SchemaSource)
        ensures
            r@ == self@,
    {
        match self {
            SchemaSource::File { file } => SchemaSource::File { file: file.clone() },
            SchemaSource::SubgraphIntrospection { subgraph_url, introspection_headers } => {
                SchemaSource::SubgraphIntrospection {
                    subgraph_url: subgraph_url.clone(),
                    introspection_headers: match introspection_headers {
                        Some(h) => Some(copy_string_map(h)),
                        None => None,
                    },
                }
            },
            SchemaSource::Subgraph { graphref, subgraph } => SchemaSource::Subgraph {
                graphref: graphref.clone(),
                subgraph: subgraph.clone(),
            },
            SchemaSource::Sdl { sdl } => SchemaSource::Sdl { sdl: sdl.clone() },
        }
    }
}

/// The config of one subgraph.
#[derive(Debug)]
pub struct SubgraphConfig {
    /// The URL the router sends this subgraph's requests to.
    pub routing_url: Option<String>,
    /// Where this subgraph's SDL comes from.
    pub schema: SchemaSource,
}

/// The mathematical value of a [`SubgraphConfig`].
pub struct SubgraphConfigView {
    pub routing_url: Option<Seq<char>>,
    pub schema: SchemaSourceView,
}

impl View for SubgraphConfig {
    type V = SubgraphConfigView;

    open spec fn view(&self) -> SubgraphConfigView {
        SubgraphConfigView { routing_url: opt_string_view(&self.routing_url), schema: self.schema@ }
    }
}

impl SubgraphConfig {
    /// Whether two subgraph configs are the same.
    pub fn same_as(&self, other: &SubgraphConfig) -> (r: bool)
        ensures
            r == (self@ == other@),
    {
        let same_url = match (&self.routing_url, &other.routing_url) {
            (Some(a), Some(b)) => *a == *b,
            (None, None) => true,
            _ => false,
        };
        same_url && self.schema.same_as(&other.schema)
    }

    /// A copy of this subgraph config.
    pub fn copy(&self) -> (r: SubgraphConfig)
        ensures
            r@ == self@,
    {
        SubgraphConfig { routing_url: copy_opt_string(&self.routing_url), schema: self.schema.copy() }
    }
}

/// The value of a map of subgraph configs, name by name.
pub open spec fn subgraph_config_map_view(m: &NameMap<SubgraphConfig>) -> Map<Seq<char>, SubgraphConfigView> {
    Map::new(|k: Seq<char>| m.key_set().contains(k), |k: Seq<char>| m.spec_get(k).unwrap()@)
}

/// A copy of a map of subgraph configs.
pub fn copy_subgraph_configs(m: &NameMap<SubgraphConfig>) -> (r: NameMap<SubgraphConfig>)
    ensures
        r.keys() == m.keys(),
        subgraph_config_map_view(&r) == subgraph_config_map_view(m),
{
    proof {
        use_type_invariant(m);
    }
    let mut r: NameMap<SubgraphConfig> = NameMap::new();
    let n = m.len();
    let mut i: usize = 0;
    while i < n
        invariant
            m.is_sorted(),
            n == m.keys().len(),
            i <= n,
            r.keys() == m.keys().take(i as int),
            r.values().len() == i,
            forall|j: int| 0 <= j < i ==> (#[trigger] r.values()[j])@ == m.values()[j]@,
        decreases n - i,
    {
        proof {
            use_type_invariant(&r);
        }
        let k = m.key_at(i).clone();
        let v = m.value_at(i).copy();
        proof {
            assert forall|j: int| 0 <= j < r.keys().len() implies crate::name_map::name_before(
                #[trigger] r.keys()[j],
                k@,
            ) by {
                assert(r.keys()[j] == m.keys()[j]);
            }
        }
        r.insert_last(k, v);
        proof {
            assert(r.keys() =~= m.keys().take(i + 1));
        }
        i = i + 1;
    }
    proof {
        use_type_invariant(&r);
        assert(r.keys() =~= m.keys());
        assert forall|k: Seq<char>| #[trigger] r.key_set().contains(k) implies r.spec_get(k).unwrap()@
            == m.spec_get(k).unwrap()@ by {
            let j = r.keys().index_of(k);
            r.lemma_get_at(j);
            m.lemma_get_at(j);
        }
        assert(subgraph_config_map_view(&r) =~= subgraph_config_map_view(m));
    }
    r
}

/// The YAML a user writes to configure a supergraph.
#[derive(Debug)]
pub struct SupergraphConfigYaml {
    pub subgraphs: NameMap<SubgraphConfig>,
    pub federation_version: Option<FederationVersion>,
}

/// The federation version of an optional one, as a value.
pub open spec fn opt_federation_version_view(v: &Option<FederationVersion>) -> Option<FederationVersionView> {
    match v {
        Some(v) => Some(v@),
        None => None,
    }
}

impl SupergraphConfigYaml {
    /// A config with no subgraphs and no federation version.
    pub fn empty() -> (r: SupergraphConfigYaml)
        ensures
            r.subgraphs.keys().len() == 0,
            r.federation_version is None,
    {
        SupergraphConfigYaml { subgraphs: NameMap::new(), federation_version: None }
    }

    /// A copy of this config.
    pub fn copy(&self) -> (r: SupergraphConfigYaml)
        ensures
            r.subgraphs.keys() == self.subgraphs.keys(),
            subgraph_config_map_view(&r.subgraphs) == subgraph_config_map_view(&self.subgraphs),
            r.federation_version == self.federation_version,
    {
        SupergraphConfigYaml {
            subgraphs: copy_subgraph_configs(&self.subgraphs),
            federation_version: self.get_federation_version(),
        }
    }

    /// The federation version the config names, if any.
    pub fn get_federation_version(&self) -> (r: Option<FederationVersion>)
        ensures
            r == self.federation_version,
    {
        match &self.federation_version {
            Some(v) => Some(v.copy()),
            None => None,
        }
    }
}

} // verus!

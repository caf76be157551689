//! A map from names to values that keeps its entries in ascending name order, comparing names
//! byte by byte in their UTF-8 encoding: the order in which a `BTreeMap<String, _>` walks its
//! entries. Supergraph configs are keyed by subgraph name this way so that every walk over them
//! is deterministic.
use vstd::prelude::*;
use vstd::utf8::*;

verus! {

/// `i` is the first position at which the byte strings `a` and `b` differ, and there `a` is the
/// smaller one (or `a` has ended while `b` goes on).
pub open spec fn first_difference_favours(a: Seq<u8>, b: Seq<u8>, i: int) -> bool {
    &&& 0 <= i <= a.len()
    &&& i <= b.len()
    &&& forall|j: int| 0 <= j < i ==> a[j] == b[j]
    &&& if i == a.len() {
        i < b.len()
    } else {
        i < b.len() && a[i] < b[i]
    }
}

/// Lexicographic byte order: `a` sorts strictly before `b`.
pub open spec fn bytes_before(a: Seq<u8>, b: Seq<u8>) -> bool {
    exists|i: int| #[trigger] first_difference_favours(a, b, i)
}

/// Name order: the UTF-8 encoding of `a` sorts strictly before that of `b`.
pub open spec fn name_before(a: Seq<char>, b: Seq<char>) -> bool {
    bytes_before(encode_utf8(a), encode_utf8(b))
}

/// The names are in strictly ascending name order.
pub open spec fn names_sorted(names: Seq<Seq<char>>) -> bool {
    forall|i: int, j: int| 0 <= i < j < names.len() ==> name_before(#[trigger] names[i], #[trigger] names[j])
}

pub proof fn lemma_bytes_before_asymmetric(a: Seq<u8>, b: Seq<u8>)
    requires
        bytes_before(a, b),
    ensures
        !bytes_before(b, a),
        a != b,
{
    let i = choose|i: int| first_difference_favours(a, b, i);
    if bytes_before(b, a) {
        let k = choose|k: int| first_difference_favours(b, a, k);
        if k < i {
            assert(a[k] == b[k]);
        } else if i < k {
            assert(b[i] == a[i]);
        }
    }
    if a == b {
        if i < a.len() {
            assert(a[i] == b[i]);
        }
    }
}

pub proof fn lemma_bytes_before_total(a: Seq<u8>, b: Seq<u8>)
    requires
        a != b,
    ensures
        bytes_before(a, b) || bytes_before(b, a),
{
    let m = if a.len() < b.len() {
        a.len() as int
    } else {
        b.len() as int
    };
    if forall|j: int| 0 <= j < m ==> a[j] == b[j] {
        if a.len() == b.len() {
            assert(a =~= b);
        } else if a.len() < b.len() {
            assert(first_difference_favours(a, b, m));
        } else {
            assert(first_difference_favours(b, a, m));
        }
    } else {
        let k = choose|k: int| 0 <= k < m && a[k] != b[k];
        let i = first_mismatch(a, b, k);
        if a[i] < b[i] {
            assert(first_difference_favours(a, b, i));
        } else {
            assert(first_difference_favours(b, a, i));
        }
    }
}

/// The first position below `k + 1` at which `a` and `b` differ, given that they differ at `k`.
proof fn first_mismatch(a: Seq<u8>, b: Seq<u8>, k: int) -> (i: int)
    requires
        0 <= k < a.len(),
        k < b.len(),
        a[k] != b[k],
    ensures
        0 <= i <= k,
        a[i] != b[i],
        forall|j: int| 0 <= j < i ==> a[j] == b[j],
    decreases k,
{
    if exists|j: int| 0 <= j < k && a[j] != b[j] {
        let j = choose|j: int| 0 <= j < k && a[j] != b[j];
        first_mismatch(a, b, j)
    } else {
        k
    }
}

pub proof fn lemma_bytes_before_transitive(a: Seq<u8>, b: Seq<u8>, c: Seq<u8>)
    requires
        bytes_before(a, b),
        bytes_before(b, c),
    ensures
        bytes_before(a, c),
{
    let i = choose|i: int| first_difference_favours(a, b, i);
    let j = choose|j: int| first_difference_favours(b, c, j);
    if i < j {
        assert(first_difference_favours(a, c, i));
    } else if j < i {
        assert(first_difference_favours(a, c, j));
    } else {
        assert(first_difference_favours(a, c, i));
    }
}

pub proof fn lemma_name_before_asymmetric(a: Seq<char>, b: Seq<char>)
    requires
        name_before(a, b),
    ensures
        !name_before(b, a),
        a != b,
{
    lemma_bytes_before_asymmetric(encode_utf8(a), encode_utf8(b));
}

pub proof fn lemma_name_before_total(a: Seq<char>, b: Seq<char>)
    requires
        a != b,
    ensures
        name_before(a, b) || name_before(b, a),
{
    encode_utf8_decode_utf8(a);
    encode_utf8_decode_utf8(b);
    lemma_bytes_before_total(encode_utf8(a), encode_utf8(b));
}

pub proof fn lemma_name_before_transitive(a: Seq<char>, b: Seq<char>, c: Seq<char>)
    requires
        name_before(a, b),
        name_before(b, c),
    ensures
        name_before(a, c),
{
    lemma_bytes_before_transitive(encode_utf8(a), encode_utf8(b), encode_utf8(c));
}

/// Compares two names in name order: negative when `a` comes first, zero when they are the same
/// name, positive when `b` comes first.
pub fn compare_names(a: &String, b: &String) -> (r: i8)
    ensures
        (r == 0) == (a@ == b@),
        (r < 0) == name_before(a@, b@),
        (r > 0) == name_before(b@, a@),
{
    let x = a.as_str().as_bytes();
    let y = b.as_str().as_bytes();
    let ghost ex = encode_utf8(a@);
    let ghost ey = encode_utf8(b@);
    assert(x@ == ex);
    assert(y@ == ey);
    let mut i: usize = 0;
    while i < x.len() && i < y.len()
        invariant
            ex == encode_utf8(a@),
            ey == encode_utf8(b@),
            x@ == ex,
            y@ == ey,
            i <= x@.len(),
            i <= y@.len(),
            forall|j: int| 0 <= j < i ==> x@[j] == y@[j],
        decreases x@.len() - i,
    {
        if x[i] < y[i] {
            proof {
                assert(first_difference_favours(ex, ey, i as int));
                lemma_name_before_asymmetric(a@, b@);
            }
            return -1;
        }
        if x[i] > y[i] {
            proof {
                assert(first_difference_favours(ey, ex, i as int));
                lemma_name_before_asymmetric(b@, a@);
            }
            return 1;
        }
        i = i + 1;
    }
    if x.len() == y.len() {
        proof {
            assert(ex =~= ey);
            encode_utf8_decode_utf8(a@);
            encode_utf8_decode_utf8(b@);
            if name_before(a@, b@) {
                lemma_name_before_asymmetric(a@, b@);
            }
        }
        0
    } else if i == x.len() {
        proof {
            assert(first_difference_favours(ex, ey, i as int));
            lemma_name_before_asymmetric(a@, b@);
        }
        -1
    } else {
        proof {
            assert(first_difference_favours(ey, ex, i as int));
            lemma_name_before_asymmetric(b@, a@);
        }
        1
    }
}


/// The names of a sequence of entries.
pub open spec fn entry_names<T>(entries: Seq<(String, T)>) -> Seq<Seq<char>> {
    entries.map_values(|e: (String, T)| e.0@)
}

/// The values of a sequence of entries.
pub open spec fn entry_values<T>(entries: Seq<(String, T)>) -> Seq<T> {
    entries.map_values(|e: (String, T)| e.1)
}

pub proof fn lemma_sorted_no_duplicates(names: Seq<Seq<char>>)
    requires
        names_sorted(names),
    ensures
        names.no_duplicates(),
{
    assert forall|i: int, j: int| 0 <= i < names.len() && 0 <= j < names.len() && i != j implies names[i]
        != names[j] by {
        if i < j {
            lemma_name_before_asymmetric(names[i], names[j]);
        } else {
            lemma_name_before_asymmetric(names[j], names[i]);
        }
    }
}

pub proof fn lemma_to_set_insert<A>(s: Seq<A>, p: int, k: A)
    requires
        0 <= p <= s.len(),
    ensures
        s.insert(p, k).to_set() == s.to_set().insert(k),
{
    let t = s.insert(p, k);
    assert forall|x: A| t.to_set().contains(x) <==> s.to_set().insert(k).contains(x) by {
        if t.contains(x) {
            let q = choose|q: int| 0 <= q < t.len() && t[q] == x;
            if q < p {
                assert(s[q] == x);
            } else if q > p {
                assert(s[q - 1] == x);
            }
        }
        if s.contains(x) {
            let q = choose|q: int| 0 <= q < s.len() && s[q] == x;
            if q < p {
                assert(t[q] == x);
            } else {
                assert(t[q + 1] == x);
            }
        }
        if x == k {
            assert(t[p] == k);
        }
    }
    assert(t.to_set() =~= s.to_set().insert(k));
}

/// A map from names to values, walked in ascending name order.
#[derive(Debug)]
pub struct NameMap<T> {
    entries: Vec<(String, T)>,
}

impl<T> NameMap<T> {
    /// The names, in ascending name order.
    pub closed spec fn keys(&self) -> Seq<Seq<char>> {
        entry_names(self.entries@)
    }

    /// The values, in the order of their names.
    pub closed spec fn values(&self) -> Seq<T> {
        entry_values(self.entries@)
    }

    #[verifier::type_invariant]
    pub open spec fn is_sorted(&self) -> bool {
        &&& names_sorted(self.keys())
        &&& self.keys().len() == self.values().len()
    }

    /// The value stored under `k`, if any.
    pub open spec fn spec_get(&self, k: Seq<char>) -> Option<T> {
        if self.keys().contains(k) {
            Some(self.values()[self.keys().index_of(k)])
        } else {
            None
        }
    }

    /// The names, as a set.
    pub open spec fn key_set(&self) -> Set<Seq<char>> {
        self.keys().to_set()
    }

    pub proof fn lemma_get_at(&self, i: int)
        requires
            self.is_sorted(),
            0 <= i < self.keys().len(),
        ensures
            self.keys().index_of(self.keys()[i]) == i,
            self.spec_get(self.keys()[i]) == Some(self.values()[i]),
    {
        lemma_sorted_no_duplicates(self.keys());
        let k = self.keys()[i];
        assert(self.keys().contains(k));
        let j = self.keys().index_of(k);
        assert(self.keys()[j] == k);
    }

    /// An empty map.
    pub fn new() -> (m: Self)
        ensures
            m.keys() == Seq::<Seq<char>>::empty(),
            m.values() == Seq::<T>::empty(),
    {
        let m = NameMap { entries: Vec::new() };
        assert(m.keys() =~= Seq::<Seq<char>>::empty());
        assert(m.values() =~= Seq::<T>::empty());
        m
    }

    /// The number of entries.
    pub fn len(&self) -> (n: usize)
        ensures
            n == self.keys().len(),
            n == self.values().len(),
    {
        self.entries.len()
    }

    /// Whether the map has no entries.
    pub fn is_empty(&self) -> (b: bool)
        ensures
            b == (self.keys().len() == 0),
    {
        self.entries.len() == 0
    }

    /// The name of the `i`-th entry in name order.
    pub fn key_at(&self, i: usize) -> (k: &String)
        requires
            i < self.keys().len(),
        ensures
            k@ == self.keys()[i as int],
    {
        &self.entries[i].0
    }

    /// The value of the `i`-th entry in name order.
    pub fn value_at(&self, i: usize) -> (v: &T)
        requires
            i < self.keys().len(),
        ensures
            *v == self.values()[i as int],
    {
        proof {
            use_type_invariant(self);
        }
        &self.entries[i].1
    }

    /// The position of `k` among the names, if it is one of them.
    pub fn find(&self, k: &String) -> (r: Option<usize>)
        ensures
            match r {
                Some(i) => i < self.keys().len() && self.keys()[i as int] == k@ && self.keys().index_of(
                    k@,
                ) == i,
                None => !self.keys().contains(k@),
            },
    {
        proof {
            use_type_invariant(self);
        }
        let mut i: usize = 0;
        while i < self.entries.len()
            invariant
                i <= self.entries@.len(),
                self.is_sorted(),
                self.keys() == entry_names(self.entries@),
                forall|j: int| 0 <= j < i ==> self.keys()[j] != k@,
            decreases self.entries@.len() - i,
        {
            if self.entries[i].0 == *k {
                proof {
                    self.lemma_get_at(i as int);
                }
                return Some(i);
            }
            i = i + 1;
        }
        None
    }

    /// The value stored under `k`, if any.
    pub fn get(&self, k: &String) -> (r: Option<&T>)
        ensures
            match r {
                Some(v) => self.spec_get(k@) == Some(*v),
                None => self.spec_get(k@) is None,
            },
    {
        match self.find(k) {
            Some(i) => Some(self.value_at(i)),
            None => None,
        }
    }

    /// Whether `k` is one of the names.
    pub fn contains_key(&self, k: &String) -> (b: bool)
        ensures
            b == self.keys().contains(k@),
            b == (self.spec_get(k@) is Some),
    {
        self.find(k).is_some()
    }

    /// Stores `v` under `k`, returning the value it replaces, if any.
    pub fn insert(&mut self, k: String, v: T) -> (r: Option<T>)
        ensures
            r == old(self).spec_get(k@),
            final(self).key_set() == old(self).key_set().insert(k@),
            forall|x: Seq<char>| #[trigger]
                final(self).spec_get(x) == if x == k@ {
                    Some(v)
                } else {
                    old(self).spec_get(x)
                },
            old(self).keys().contains(k@) ==> final(self).keys() == old(self).keys(),
            !old(self).keys().contains(k@) ==> final(self).keys().len() == old(self).keys().len() + 1,
    {
        proof {
            use_type_invariant(&*self);
        }
        let ghost old_keys = self.keys();
        let ghost old_values = self.values();
        let mut entries: Vec<(String, T)> = Vec::new();
        std::mem::swap(&mut entries, &mut self.entries);
        assert(entry_names(entries@) == old_keys);
        assert(entry_values(entries@) == old_values);
        let mut p: usize = 0;
        while p < entries.len() && compare_names(&entries[p].0, &k) < 0
            invariant
                p <= entries@.len(),
                entry_names(entries@) == old_keys,
                forall|j: int| 0 <= j < p ==> name_before(old_keys[j], k@),
            decreases entries@.len() - p,
        {
            p = p + 1;
        }
        // Every name before `p` sorts before `k`; from `p` on, none does.
        assert forall|j: int| p <= j < old_keys.len() implies !name_before(old_keys[j], k@) by {
            if j > p {
                if name_before(old_keys[j], k@) {
                    lemma_name_before_transitive(old_keys[p as int], old_keys[j], k@);
                }
            }
        }
        if p < entries.len() && entries[p].0 == k {
            assert(old_keys[p as int] == k@);
            let old_entry = entries.remove(p);
            entries.insert(p, (k, v));
            proof {
                assert(entry_names(entries@) =~= old_keys);
                assert(entry_values(entries@) =~= old_values.update(p as int, v));
                lemma_sorted_no_duplicates(old_keys);
                assert(old_keys.index_of(k@) == p) by {
                    let q = old_keys.index_of(k@);
                    assert(old_keys.contains(k@));
                    assert(old_keys[q] == k@);
                }
                assert(old_entry.1 == old_values[p as int]);
                assert(old_keys.contains(k@));
                assert(entry_names(entries@).to_set() =~= old_keys.to_set().insert(k@));
            }
            self.entries = entries;
            proof {
                assert forall|x: Seq<char>| #[trigger]
                    self.spec_get(x) == if x == k@ {
                        Some(v)
                    } else {
                        old(self).spec_get(x)
                    } by {
                    if self.keys().contains(x) {
                        let q = self.keys().index_of(x);
                        self.lemma_get_at(q);
                        old(self).lemma_get_at(q);
                    }
                }
            }
            Some(old_entry.1)
        } else {
            proof {
                assert(!old_keys.contains(k@)) by {
                    if old_keys.contains(k@) {
                        let q = old_keys.index_of(k@);
                        if q < p {
                            lemma_name_before_asymmetric(old_keys[q], k@);
                        } else if q > p {
                            lemma_name_before_total(old_keys[p as int], k@);
                            lemma_name_before_transitive(k@, old_keys[p as int], old_keys[q]);
                            lemma_name_before_asymmetric(k@, old_keys[q]);
                        }
                    }
                }
                if p < old_keys.len() {
                    lemma_name_before_total(old_keys[p as int], k@);
                }
            }
            entries.insert(p, (k, v));
            proof {
                let nk = entry_names(entries@);
                assert(nk =~= old_keys.insert(p as int, k@));
                assert(entry_values(entries@) =~= old_values.insert(p as int, v));
                assert forall|i: int, j: int| 0 <= i < j < nk.len() implies name_before(
                    #[trigger] nk[i],
                    #[trigger] nk[j],
                ) by {
                    if j < p {
                    } else if j == p {
                    } else if i < p {
                        // nk[i] before k, k before nk[j]
                        if j - 1 > p {
                            lemma_name_before_transitive(k@, old_keys[p as int], old_keys[j - 1]);
                        }
                        lemma_name_before_transitive(nk[i], k@, nk[j]);
                    } else if i == p {
                        if j - 1 > p {
                            lemma_name_before_transitive(k@, old_keys[p as int], old_keys[j - 1]);
                        }
                    } else {
                    }
                }
                lemma_to_set_insert(old_keys, p as int, k@);
            }
            self.entries = entries;
            proof {
                assert forall|x: Seq<char>| #[trigger]
                    self.spec_get(x) == if x == k@ {
                        Some(v)
                    } else {
                        old(self).spec_get(x)
                    } by {
                    if self.keys().contains(x) {
                        let q = self.keys().index_of(x);
                        self.lemma_get_at(q);
                        if q < p {
                            old(self).lemma_get_at(q);
                        } else if q > p {
                            assert(old_keys[q - 1] == x);
                            old(self).lemma_get_at(q - 1);
                        }
                    } else {
                        assert(self.keys()[p as int] == k@);
                        if old(self).keys().contains(x) {
                            let q = old(self).keys().index_of(x);
                            if q < p {
                                assert(self.keys()[q] == x);
                            } else {
                                assert(self.keys()[q + 1] == x);
                            }
                        }
                    }
                }
            }
            None
        }
    }

    /// Removes the entry named `k`, returning its value, if any.
    pub fn remove(&mut self, k: &String) -> (r: Option<T>)
        ensures
            r == old(self).spec_get(k@),
            final(self).key_set() == old(self).key_set().remove(k@),
            forall|x: Seq<char>| #[trigger]
                final(self).spec_get(x) == if x == k@ {
                    None
                } else {
                    old(self).spec_get(x)
                },
            old(self).keys().contains(k@) ==> final(self).keys() == old(self).keys().remove(
                old(self).keys().index_of(k@),
            ),
            !old(self).keys().contains(k@) ==> final(self).keys() == old(self).keys(),
    {
        proof {
            use_type_invariant(&*self);
        }
        match self.find(k) {
            None => None,
            Some(i) => {
                let ghost old_keys = self.keys();
                let ghost old_values = self.values();
                proof {
                    self.lemma_get_at(i as int);
                }
                let mut entries: Vec<(String, T)> = Vec::new();
                std::mem::swap(&mut entries, &mut self.entries);
                assert(entry_names(entries@) == old_keys);
                assert(entry_values(entries@) == old_values);
                let removed = entries.remove(i);
                proof {
                    let nk = entry_names(entries@);
                    assert(nk =~= old_keys.remove(i as int));
                    assert(entry_values(entries@) =~= old_values.remove(i as int));
                    assert forall|a: int, b: int| 0 <= a < b < nk.len() implies name_before(
                        #[trigger] nk[a],
                        #[trigger] nk[b],
                    ) by {
                        if a < i && b >= i {
                            assert(nk[b] == old_keys[b + 1]);
                        } else if a >= i {
                            assert(nk[a] == old_keys[a + 1]);
                            assert(nk[b] == old_keys[b + 1]);
                        }
                    }
                    lemma_sorted_no_duplicates(old_keys);
                    lemma_to_set_remove(old_keys, i as int);
                }
                self.entries = entries;
                proof {
                    assert forall|x: Seq<char>| #[trigger]
                        self.spec_get(x) == if x == k@ {
                            None
                        } else {
                            old(self).spec_get(x)
                        } by {
                        if self.keys().contains(x) {
                            let q = self.keys().index_of(x);
                            self.lemma_get_at(q);
                            if q < i {
                                old(self).lemma_get_at(q);
                            } else {
                                assert(old_keys[q + 1] == x);
                                old(self).lemma_get_at(q + 1);
                            }
                        } else if old(self).keys().contains(x) {
                            let q = old(self).keys().index_of(x);
                            if q < i {
                                assert(self.keys()[q] == x);
                            } else if q > i {
                                assert(self.keys()[q - 1] == x);
                            }
                        }
                    }
                }
                Some(removed.1)
            },
        }
    }

    /// Removes every entry whose name is one of `names`.
    pub fn remove_all(&mut self, names: &Vec<String>)
        ensures
            final(self).key_set() == old(self).key_set().difference(
                names@.map_values(|n: String| n@).to_set(),
            ),
            forall|x: Seq<char>| #[trigger]
                final(self).spec_get(x) == if names@.map_values(|n: String| n@).contains(x) {
                    None
                } else {
                    old(self).spec_get(x)
                },
    {
        let ghost ns = names@.map_values(|n: String| n@);
        let mut i: usize = 0;
        while i < names.len()
            invariant
                i <= names@.len(),
                ns == names@.map_values(|n: String| n@),
                self.key_set() == old(self).key_set().difference(ns.take(i as int).to_set()),
                forall|x: Seq<char>| #[trigger]
                    self.spec_get(x) == if ns.take(i as int).contains(x) {
                        None
                    } else {
                        old(self).spec_get(x)
                    },
            decreases names@.len() - i,
        {
            let ghost before = self.key_set();
            let ghost prev = *self;
            self.remove(&names[i]);
            proof {
                let t = ns.take(i as int);
                let t2 = ns.take(i + 1);
                assert(t2 =~= t.push(ns[i as int]));
                assert forall|x: Seq<char>| t2.contains(x) <==> (t.contains(x) || x == ns[i as int]) by {
                    if t2.contains(x) {
                        let q = choose|q: int| 0 <= q < t2.len() && t2[q] == x;
                        if q < i {
                            assert(t[q] == x);
                        }
                    }
                    if t.contains(x) {
                        let q = choose|q: int| 0 <= q < t.len() && t[q] == x;
                        assert(t2[q] == x);
                    }
                    if x == ns[i as int] {
                        assert(t2[i as int] == x);
                    }
                }
                assert(self.key_set() =~= old(self).key_set().difference(t2.to_set()));
                assert forall|x: Seq<char>| #[trigger]
                    self.spec_get(x) == if t2.contains(x) {
                        None
                    } else {
                        old(self).spec_get(x)
                    } by {
                    assert(prev.spec_get(x) == if t.contains(x) {
                        None
                    } else {
                        old(self).spec_get(x)
                    });
                }
            }
            i = i + 1;
        }
        proof {
            assert(ns.take(names@.len() as int) =~= ns);
        }
    }

    /// Appends an entry whose name sorts after every name present.
    pub fn insert_last(&mut self, k: String, v: T)
        requires
            forall|j: int| 0 <= j < old(self).keys().len() ==> name_before(#[trigger] old(self).keys()[j], k@),
        ensures
            final(self).keys() == old(self).keys().push(k@),
            final(self).values() == old(self).values().push(v),
    {
        proof {
            use_type_invariant(&*self);
        }
        let ghost old_keys = self.keys();
        let ghost old_values = self.values();
        let mut entries: Vec<(String, T)> = Vec::new();
        std::mem::swap(&mut entries, &mut self.entries);
        assert(entry_names(entries@) == old_keys);
        entries.push((k, v));
        proof {
            let nk = entry_names(entries@);
            assert(nk =~= old_keys.push(k@));
            assert(entry_values(entries@) =~= old_values.push(v));
            assert forall|i: int, j: int| 0 <= i < j < nk.len() implies name_before(
                #[trigger] nk[i],
                #[trigger] nk[j],
            ) by {
                if j == old_keys.len() {
                    assert(nk[i] == old_keys[i]);
                }
            }
        }
        self.entries = entries;
    }

    /// The names, in ascending name order.
    pub fn key_list(&self) -> (r: Vec<String>)
        ensures
            r@.map_values(|n: String| n@) == self.keys(),
    {
        let mut r: Vec<String> = Vec::new();
        let mut i: usize = 0;
        while i < self.entries.len()
            invariant
                i <= self.entries@.len(),
                r@.len() == i,
                r@.map_values(|n: String| n@) == entry_names(self.entries@).take(i as int),
            decreases self.entries@.len() - i,
        {
            let ghost before = r@;
            let k = self.key_at(i).clone();
            r.push(k);
            proof {
                assert(before.map_values(|n: String| n@) =~= entry_names(self.entries@).take(i as int));
                assert(r@.map_values(|n: String| n@) =~= entry_names(self.entries@).take(i + 1));
            }
            i = i + 1;
        }
        proof {
            assert(entry_names(self.entries@).take(i as int) =~= entry_names(self.entries@));
        }
        r
    }

    /// Gives up the entries, in ascending name order.
    pub fn into_entries(self) -> (v: Vec<(String, T)>)
        ensures
            entry_names(v@) == self.keys(),
            entry_values(v@) == self.values(),
    {
        self.entries
    }
}

pub proof fn lemma_to_set_remove<A>(s: Seq<A>, i: int)
    requires
        0 <= i < s.len(),
        s.no_duplicates(),
    ensures
        s.remove(i).to_set() == s.to_set().remove(s[i]),
{
    let t = s.remove(i);
    assert forall|x: A| t.to_set().contains(x) <==> s.to_set().remove(s[i]).contains(x) by {
        if t.contains(x) {
            let q = choose|q: int| 0 <= q < t.len() && t[q] == x;
            if q < i {
                assert(s[q] == x);
            } else {
                assert(s[q + 1] == x);
            }
        }
        if s.contains(x) && x != s[i] {
            let q = choose|q: int| 0 <= q < s.len() && s[q] == x;
            if q < i {
                assert(t[q] == x);
            } else {
                assert(t[q - 1] == x);
            }
        }
    }
    assert(t.to_set() =~= s.to_set().remove(s[i]));
}

} // verus!

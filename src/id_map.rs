use vstd::prelude::*;

verus! {

/// An identifier that can key an [`IdMap`]: two identifiers name the same
/// entry exactly when their views are equal.
pub trait IdKey: View + Sized {
    fn same_id(&self, other: &Self) -> (r: bool)
        ensures
            r == (self@ == other@),
    ;

    fn clone_key(&self) -> (r: Self)
        ensures
            r == *self,
    ;
}

/// A test on values, used to drop every entry whose value it selects.
pub trait ValueFilter<V> {
    spec fn selects(&self, value: V) -> bool;

    fn test(&self, value: &V) -> (r: bool)
        ensures
            r == self.selects(*value),
    ;
}

/// A finite map from identifiers to values.
///
/// The entries are kept in a vector in which no two keys have the same view;
/// the map's view sends the view of each key to its value.
pub struct IdMap<K: IdKey, V> {
    entries: Vec<(K, V)>,
    contents: Ghost<Map<<K as View>::V, V>>,
}

impl<K: IdKey, V> View for IdMap<K, V> {
    type V = Map<<K as View>::V, V>;

    closed spec fn view(&self) -> Map<<K as View>::V, V> {
        self.contents@
    }
}

/// The part of `entries` from index `lo` on, as a map from key views to values.
spec fn suffix_map<K: IdKey, V>(entries: Seq<(K, V)>, whole: Map<<K as View>::V, V>, lo: int) -> Map<
    <K as View>::V,
    V,
> {
    Map::new(
        |k: <K as View>::V| exists|j: int| lo <= j < entries.len() && (#[trigger] entries[j]).0@ == k,
        |k: <K as View>::V| whole[k],
    )
}

/// `entries` lists `whole` exactly: each entry is in the map, each key of the
/// map has an entry, and no two entries share a key.
spec fn entries_match<K: IdKey, V>(entries: Seq<(K, V)>, whole: Map<<K as View>::V, V>) -> bool {
    &&& forall|i: int|
        0 <= i < entries.len() ==> whole.contains_key((#[trigger] entries[i]).0@) && whole[entries[i].0@]
            == entries[i].1
    &&& forall|k: <K as View>::V| #[trigger]
        whole.contains_key(k) ==> exists|i: int| 0 <= i < entries.len() && (#[trigger] entries[i]).0@ == k
    &&& forall|i: int, j: int|
        0 <= i < entries.len() && 0 <= j < entries.len() && i != j ==> (#[trigger] entries[i]).0@ != (
        #[trigger] entries[j]).0@
}

/// The entries of `entries` from index `lo` on whose values `filter` keeps.
spec fn kept_suffix<K: IdKey, V, F: ValueFilter<V>>(
    entries: Seq<(K, V)>,
    whole: Map<<K as View>::V, V>,
    lo: int,
    filter: F,
) -> Map<<K as View>::V, V> {
    Map::new(
        |k: <K as View>::V| suffix_map(entries, whole, lo).contains_key(k) && !filter.selects(whole[k]),
        |k: <K as View>::V| whole[k],
    )
}

proof fn lemma_match_update<K: IdKey, V>(
    e: Seq<(K, V)>,
    m: Map<<K as View>::V, V>,
    i: int,
    k: K,
    v: V,
)
    requires
        entries_match(e, m),
        0 <= i < e.len(),
        e[i].0@ == k@,
    ensures
        entries_match(e.update(i, (k, v)), m.insert(k@, v)),
{
    let e2 = e.update(i, (k, v));
    let m2 = m.insert(k@, v);
    assert forall|j: int| 0 <= j < e2.len() implies m2.contains_key((#[trigger] e2[j]).0@) && m2[e2[j].0@]
        == e2[j].1 by {
        if j != i {
            assert(e[j].0@ != e[i].0@);
        }
    }
    assert forall|key| #[trigger] m2.contains_key(key) implies exists|j: int|
        0 <= j < e2.len() && (#[trigger] e2[j]).0@ == key by {
        if key != k@ {
            let j = choose|j: int| 0 <= j < e.len() && (#[trigger] e[j]).0@ == key;
            assert(e2[j] == e[j]);
        } else {
            assert(e2[i].0@ == key);
        }
    }
    assert forall|a: int, b: int| 0 <= a < e2.len() && 0 <= b < e2.len() && a != b implies (
    #[trigger] e2[a]).0@ != (#[trigger] e2[b]).0@ by {
        if a != i && b != i {
            assert(e[a].0@ != e[b].0@);
        } else if a == i {
            assert(e[b].0@ != e[i].0@);
        } else {
            assert(e[a].0@ != e[i].0@);
        }
    }
}

proof fn lemma_match_push<K: IdKey, V>(e: Seq<(K, V)>, m: Map<<K as View>::V, V>, k: K, v: V)
    requires
        entries_match(e, m),
        !m.contains_key(k@),
    ensures
        entries_match(e.push((k, v)), m.insert(k@, v)),
{
    let e2 = e.push((k, v));
    let m2 = m.insert(k@, v);
    let n = e.len() as int;
    assert forall|j: int| 0 <= j < n implies (#[trigger] e2[j]).0@ != k@ by {
        assert(e2[j] == e[j]);
        assert(m.contains_key(e[j].0@));
    }
    assert forall|j: int| 0 <= j < e2.len() implies m2.contains_key((#[trigger] e2[j]).0@) && m2[e2[j].0@]
        == e2[j].1 by {
        if j < n {
            assert(e2[j] == e[j]);
        }
    }
    assert forall|key| #[trigger] m2.contains_key(key) implies exists|j: int|
        0 <= j < e2.len() && (#[trigger] e2[j]).0@ == key by {
        if key != k@ {
            let j = choose|j: int| 0 <= j < e.len() && (#[trigger] e[j]).0@ == key;
            assert(e2[j] == e[j]);
        } else {
            assert(e2[n].0@ == key);
        }
    }
    assert forall|a: int, b: int| 0 <= a < e2.len() && 0 <= b < e2.len() && a != b implies (
    #[trigger] e2[a]).0@ != (#[trigger] e2[b]).0@ by {
        if a < n && b < n {
            assert(e[a].0@ != e[b].0@);
        }
    }
}

proof fn lemma_match_remove<K: IdKey, V>(e: Seq<(K, V)>, m: Map<<K as View>::V, V>, i: int)
    requires
        entries_match(e, m),
        0 <= i < e.len(),
    ensures
        entries_match(e.remove(i), m.remove(e[i].0@)),
{
    let e2 = e.remove(i);
    let kv = e[i].0@;
    let m2 = m.remove(kv);
    assert forall|j: int| 0 <= j < e2.len() implies (#[trigger] e2[j]) == if j < i {
        e[j]
    } else {
        e[j + 1]
    } by {}
    assert forall|j: int| 0 <= j < e2.len() implies m2.contains_key((#[trigger] e2[j]).0@) && m2[e2[j].0@]
        == e2[j].1 by {
        if j < i {
            assert(e[j].0@ != e[i].0@);
        } else {
            assert(e[j + 1].0@ != e[i].0@);
        }
    }
    assert forall|key| #[trigger] m2.contains_key(key) implies exists|j: int|
        0 <= j < e2.len() && (#[trigger] e2[j]).0@ == key by {
        let j = choose|j: int| 0 <= j < e.len() && (#[trigger] e[j]).0@ == key;
        if j < i {
            assert(e2[j] == e[j]);
        } else {
            assert(j != i);
            assert(e2[j - 1] == e[j]);
        }
    }
    assert forall|a: int, b: int| 0 <= a < e2.len() && 0 <= b < e2.len() && a != b implies (
    #[trigger] e2[a]).0@ != (#[trigger] e2[b]).0@ by {
        let a2 = if a < i {
            a
        } else {
            a + 1
        };
        let b2 = if b < i {
            b
        } else {
            b + 1
        };
        assert(e[a2].0@ != e[b2].0@);
    }
}

impl<K: IdKey, V> IdMap<K, V> {
    #[verifier::type_invariant]
    spec fn wf(&self) -> bool {
        entries_match(self.entries@, self.contents@)
    }

    /// Number of entries.
    pub closed spec fn spec_len(&self) -> nat {
        self.entries@.len()
    }

    /// View of the key of the entry at index `i`.
    pub closed spec fn key_at(&self, i: int) -> <K as View>::V {
        self.entries@[i].0@
    }

    /// The entry at index `i`.
    pub closed spec fn spec_entry(&self, i: int) -> (K, V) {
        self.entries@[i]
    }

    pub fn new() -> (r: Self)
        ensures
            r@ == Map::<<K as View>::V, V>::empty(),
    {
        IdMap { entries: Vec::new(), contents: Ghost(Map::empty()) }
    }

    /// Number of entries, which is the size of the map's domain; every key of
    /// the map is the key of one of the entries.
    pub fn len(&self) -> (r: usize)
        ensures
            r == self.spec_len(),
            self@.dom().finite(),
            r == self@.dom().len(),
            forall|k: <K as View>::V| #[trigger]
                self@.contains_key(k) ==> exists|i: int| 0 <= i < r && self.key_at(i) == k,
            forall|i: int|
                0 <= i < r ==> #[trigger] self.key_at(i) == self.spec_entry(i).0@ && self@.contains_key(
                    self.key_at(i),
                ) && self@[self.key_at(i)] == self.spec_entry(i).1,
    {
        proof {
            use_type_invariant(self);
            let keys = Seq::new(self.entries@.len(), |i: int| self.entries@[i].0@);
            assert(keys.no_duplicates());
            assert(keys.to_set() =~= self@.dom()) by {
                assert forall|k| #[trigger] self@.dom().contains(k) implies keys.contains(k) by {
                    let i = choose|i: int|
                        0 <= i < self.entries@.len() && (#[trigger] self.entries@[i]).0@ == k;
                    assert(keys[i] == k);
                }
            }
            keys.unique_seq_to_set();
            assert forall|k: <K as View>::V| #[trigger]
                self@.contains_key(k) implies exists|i: int|
                0 <= i < self.entries@.len() && self.key_at(i) == k by {
                let i = choose|i: int|
                    0 <= i < self.entries@.len() && (#[trigger] self.entries@[i]).0@ == k;
                assert(self.key_at(i) == k);
            }
        }
        self.entries.len()
    }

    pub fn is_empty(&self) -> (r: bool)
        ensures
            r == (self@.dom() == Set::<<K as View>::V>::empty()),
    {
        proof {
            use_type_invariant(self);
            if self.entries@.len() > 0 {
                assert(self@.dom().contains(self.entries@[0].0@));
            } else {
                assert(self@.dom() =~= Set::<<K as View>::V>::empty());
            }
        }
        self.entries.len() == 0
    }

    /// The entry at index `i`, for walking over the whole map.
    pub fn entry_at(&self, i: usize) -> (r: (&K, &V))
        requires
            i < self.spec_len(),
        ensures
            r.0@ == self.key_at(i as int),
            (*r.0, *r.1) == self.spec_entry(i as int),
            self@.contains_key(r.0@),
            self@[r.0@] == *r.1,
    {
        proof {
            use_type_invariant(self);
        }
        let e = &self.entries[i];
        (&e.0, &e.1)
    }

    fn find(&self, k: &K) -> (r: Option<usize>)
        ensures
            match r {
                Some(i) => i < self.entries@.len() && self.entries@[i as int].0@ == k@,
                None => !self@.contains_key(k@),
            },
    {
        proof {
            use_type_invariant(self);
        }
        let mut i: usize = 0;
        while i < self.entries.len()
            invariant
                i <= self.entries@.len(),
                forall|j: int| 0 <= j < i ==> (#[trigger] self.entries@[j]).0@ != k@,
            decreases self.entries@.len() - i,
        {
            if self.entries[i].0.same_id(k) {
                return Some(i);
            }
            i = i + 1;
        }
        None
    }

    pub fn contains_key(&self, k: &K) -> (r: bool)
        ensures
            r == self@.contains_key(k@),
    {
        proof {
            use_type_invariant(self);
        }
        match self.find(k) {
            Some(_) => true,
            None => false,
        }
    }

    pub fn get(&self, k: &K) -> (r: Option<&V>)
        ensures
            match r {
                Some(v) => self@.contains_key(k@) && *v == self@[k@],
                None => !self@.contains_key(k@),
            },
    {
        proof {
            use_type_invariant(self);
        }
        match self.find(k) {
            Some(i) => Some(&self.entries[i].1),
            None => None,
        }
    }

    /// Sets the value under `k`, replacing any value it had.
    pub fn insert(&mut self, k: K, v: V)
        ensures
            final(self)@ == old(self)@.insert(k@, v),
    {
        proof {
            use_type_invariant(&*self);
        }
        let pos = self.find(&k);
        let mut taken = IdMap::new();
        std::mem::swap(self, &mut taken);
        proof {
            use_type_invariant(&taken);
        }
        let IdMap { mut entries, contents } = taken;
        let ghost e = entries@;
        let ghost m = contents@;
        let ghost kv = k@;
        match pos {
            Some(i) => {
                proof {
                    lemma_match_update(e, m, i as int, k, v);
                }
                entries[i] = (k, v);
            },
            None => {
                proof {
                    lemma_match_push(e, m, k, v);
                }
                entries.push((k, v));
            },
        }
        *self = IdMap { entries, contents: Ghost(m.insert(kv, v)) };
    }

    /// Removes the entry under `k`, handing back its value if there was one.
    pub fn remove(&mut self, k: &K) -> (r: Option<V>)
        ensures
            match r {
                Some(v) => old(self)@.contains_key(k@) && v == old(self)@[k@] && final(self)@ == old(
                    self,
                )@.remove(k@),
                None => !old(self)@.contains_key(k@) && *final(self) == *old(self),
            },
    {
        proof {
            use_type_invariant(&*self);
        }
        let pos = self.find(k);
        match pos {
            None => None,
            Some(i) => {
                let mut taken = IdMap::new();
                std::mem::swap(self, &mut taken);
                proof {
                    use_type_invariant(&taken);
                }
                let IdMap { mut entries, contents } = taken;
                let ghost e = entries@;
                let ghost m = contents@;
                let ghost kv = k@;
                proof {
                    lemma_match_remove(e, m, i as int);
                }
                let (_, v) = entries.remove(i);
                *self = IdMap { entries, contents: Ghost(m.remove(kv)) };
                Some(v)
            },
        }
    }

    /// Sets every entry of `other` into this map, replacing values under keys
    /// that both hold.
    pub fn extend(&mut self, other: IdMap<K, V>)
        ensures
            final(self)@ == old(self)@.union_prefer_right(other@),
    {
        proof {
            use_type_invariant(&other);
        }
        let ghost start = self@;
        let IdMap { mut entries, contents } = other;
        let ghost e = entries@;
        let ghost m = contents@;
        assert(suffix_map(e, m, e.len() as int) =~= Map::<<K as View>::V, V>::empty());
        while entries.len() > 0
            invariant
                entries@ == e.subrange(0, entries@.len() as int),
                entries@.len() <= e.len(),
                forall|i: int| 0 <= i < e.len() ==> m.contains_key((#[trigger] e[i]).0@) && m[e[i].0@] == e[i].1,
                forall|i: int, j: int|
                    0 <= i < e.len() && 0 <= j < e.len() && i != j ==> (#[trigger] e[i]).0@ != (#[trigger] e[j]).0@,
                self@ == start.union_prefer_right(suffix_map(e, m, entries@.len() as int)),
            decreases entries@.len(),
        {
            let ghost n = entries@.len() as int;
            let (k, v) = entries.pop().unwrap();
            proof {
                assert(e[n - 1] == (k, v));
                let kv = k@;
                assert(suffix_map(e, m, n - 1) =~= suffix_map(e, m, n).insert(kv, v)) by {
                    assert forall|key| #[trigger] suffix_map(e, m, n - 1).contains_key(key) <==> suffix_map(
                        e,
                        m,
                        n,
                    ).insert(kv, v).contains_key(key) by {
                        if suffix_map(e, m, n - 1).contains_key(key) && key != kv {
                            let j = choose|j: int| n - 1 <= j < e.len() && (#[trigger] e[j]).0@ == key;
                            assert(j != n - 1);
                        }
                        if key == kv {
                            assert(e[n - 1].0@ == key);
                        }
                    }
                }
                assert(start.union_prefer_right(suffix_map(e, m, n - 1)) =~= start.union_prefer_right(
                    suffix_map(e, m, n),
                ).insert(kv, v));
            }
            self.insert(k, v);
        }
        proof {
            assert(suffix_map(e, m, 0) =~= m) by {
                assert forall|key| #[trigger] m.contains_key(key) implies suffix_map(e, m, 0).contains_key(
                    key,
                ) by {
                    let j = choose|j: int| 0 <= j < e.len() && (#[trigger] e[j]).0@ == key;
                }
            }
        }
    }

    /// Removes every entry whose value `filter` selects.
    pub fn remove_matching<F: ValueFilter<V>>(&mut self, filter: &F)
        ensures
            final(self)@ == Map::new(
                |k: <K as View>::V| old(self)@.contains_key(k) && !filter.selects(old(self)@[k]),
                |k: <K as View>::V| old(self)@[k],
            ),
    {
        let mut taken = IdMap::new();
        std::mem::swap(self, &mut taken);
        proof {
            use_type_invariant(&taken);
        }
        let IdMap { mut entries, contents } = taken;
        let ghost e = entries@;
        let ghost m = contents@;
        assert(self@ =~= kept_suffix(e, m, e.len() as int, *filter));
        while entries.len() > 0
            invariant
                entries@ == e.subrange(0, entries@.len() as int),
                entries@.len() <= e.len(),
                forall|i: int| 0 <= i < e.len() ==> m.contains_key((#[trigger] e[i]).0@) && m[e[i].0@] == e[i].1,
                forall|i: int, j: int|
                    0 <= i < e.len() && 0 <= j < e.len() && i != j ==> (#[trigger] e[i]).0@ != (#[trigger] e[j]).0@,
                self@ == kept_suffix(e, m, entries@.len() as int, *filter),
            decreases entries@.len(),
        {
            let ghost n = entries@.len() as int;
            let (k, v) = entries.pop().unwrap();
            let drop = filter.test(&v);
            proof {
                assert(e[n - 1] == (k, v));
                let kv = k@;
                assert forall|key| #[trigger] suffix_map(e, m, n - 1).contains_key(key) <==> (suffix_map(
                    e,
                    m,
                    n,
                ).contains_key(key) || key == kv) by {
                    if suffix_map(e, m, n - 1).contains_key(key) && key != kv {
                        let j = choose|j: int| n - 1 <= j < e.len() && (#[trigger] e[j]).0@ == key;
                        assert(j != n - 1);
                    }
                    if key == kv {
                        assert(e[n - 1].0@ == key);
                    }
                }
                assert(m[kv] == v);
                assert(drop == filter.selects(v));
                if drop {
                    assert(kept_suffix(e, m, n - 1, *filter) =~= kept_suffix(e, m, n, *filter)) by {
                        assert forall|key| #[trigger] kept_suffix(e, m, n - 1, *filter).contains_key(key)
                            <==> kept_suffix(e, m, n, *filter).contains_key(key) by {
                            if key == kv {
                                assert(filter.selects(m[key]));
                            }
                        }
                    }
                } else {
                    assert(kept_suffix(e, m, n - 1, *filter) =~= kept_suffix(e, m, n, *filter).insert(kv, v)) by {
                        assert forall|key| #[trigger] kept_suffix(e, m, n - 1, *filter).contains_key(key)
                            <==> kept_suffix(e, m, n, *filter).insert(kv, v).contains_key(key) by {}
                    }
                }
            }
            if !drop {
                self.insert(k, v);
            }
        }
        proof {
            assert(suffix_map(e, m, 0) =~= m) by {
                assert forall|key| #[trigger] m.contains_key(key) implies suffix_map(e, m, 0).contains_key(
                    key,
                ) by {
                    let j = choose|j: int| 0 <= j < e.len() && (#[trigger] e[j]).0@ == key;
                }
            }
            assert(self@ =~= Map::new(
                |k: <K as View>::V| m.contains_key(k) && !filter.selects(m[k]),
                |k: <K as View>::V| m[k],
            ));
        }
    }
}

} // verus!

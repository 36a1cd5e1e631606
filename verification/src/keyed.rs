use vstd::prelude::*;

verus! {

/// A key whose equality executable code can decide, in agreement with its view.
pub trait EntryKey: View + Sized {
    fn same_key(&self, other: &Self) -> (res: bool)
        ensures
            res == (self@ == other@),
    ;
}

impl EntryKey for u64 {
    fn same_key(&self, other: &Self) -> (res: bool) {
        *self == *other
    }
}

impl EntryKey for Vec<u8> {
    fn same_key(&self, other: &Self) -> (res: bool) {
        let n = self.len();
        if n != other.len() {
            return false;
        }
        let mut i: usize = 0;
        while i < n
            invariant
                n == self@.len(),
                n == other@.len(),
                i <= n,
                forall|j: int| 0 <= j < i ==> self@[j] == other@[j],
            decreases n - i,
        {
            if self[i] != other[i] {
                return false;
            }
            i = i + 1;
        }
        assert(self@ =~= other@);
        true
    }
}

/// The keys of a list of entries, in order.
pub open spec fn keys_of<K: EntryKey, V>(es: Seq<(K, V)>) -> Seq<K::V> {
    Seq::new(es.len(), |i: int| es[i].0@)
}

/// The position of a key in a list of entries.
spec fn index_of<K: EntryKey, V>(es: Seq<(K, V)>, k: K::V) -> int {
    choose|i: int| 0 <= i < es.len() && es[i].0@ == k
}

/// The map that a list of entries stands for.
spec fn map_of<K: EntryKey, V>(es: Seq<(K, V)>) -> Map<K::V, V> {
    Map::new(|k: K::V| keys_of(es).contains(k), |k: K::V| es[index_of(es, k)].1)
}

proof fn lemma_map_at<K: EntryKey, V>(es: Seq<(K, V)>, i: int)
    requires
        keys_of(es).no_duplicates(),
        0 <= i < es.len(),
    ensures
        map_of(es).dom().contains(es[i].0@),
        map_of(es)[es[i].0@] == es[i].1,
{
    let k = es[i].0@;
    assert(keys_of(es)[i] == k);
    let j = index_of(es, k);
    assert(0 <= j < es.len() && es[j].0@ == k);
    assert(keys_of(es)[j] == keys_of(es)[i]);
}

proof fn lemma_map_dom<K: EntryKey, V>(es: Seq<(K, V)>, k: K::V)
    ensures
        map_of(es).dom().contains(k) <==> exists|i: int| 0 <= i < es.len() && es[i].0@ == k,
{
    if keys_of(es).contains(k) {
        let i = choose|i: int| 0 <= i < keys_of(es).len() && keys_of(es)[i] == k;
        assert(es[i].0@ == k);
    }
    if exists|i: int| 0 <= i < es.len() && es[i].0@ == k {
        let i = choose|i: int| 0 <= i < es.len() && es[i].0@ == k;
        assert(keys_of(es)[i] == k);
    }
}

/// Replacing the value at one position changes the map at that key only.
proof fn lemma_map_update<K: EntryKey, V>(es: Seq<(K, V)>, i: int, e: (K, V))
    requires
        keys_of(es).no_duplicates(),
        0 <= i < es.len(),
        e.0@ == es[i].0@,
    ensures
        keys_of(es.update(i, e)) == keys_of(es),
        map_of(es.update(i, e)) == map_of(es).insert(e.0@, e.1),
{
    let ns = es.update(i, e);
    assert(keys_of(ns) =~= keys_of(es));
    assert forall|q: K::V| #[trigger] map_of(ns).dom().contains(q) implies map_of(ns)[q]
        == map_of(es).insert(e.0@, e.1)[q] by {
        lemma_map_dom(ns, q);
        let j = choose|j: int| 0 <= j < ns.len() && ns[j].0@ == q;
        lemma_map_at(ns, j);
        lemma_map_at(es, j);
        if j != i {
            assert(keys_of(es)[j] != keys_of(es)[i]);
        }
    }
    assert(map_of(ns).dom() =~= map_of(es).insert(e.0@, e.1).dom()) by {
        lemma_map_at(es, i);
    }
    assert(map_of(ns) =~= map_of(es).insert(e.0@, e.1));
}

/// Appending an entry with a new key adds that key to the map.
proof fn lemma_map_push<K: EntryKey, V>(es: Seq<(K, V)>, e: (K, V))
    requires
        keys_of(es).no_duplicates(),
        !keys_of(es).contains(e.0@),
    ensures
        keys_of(es.push(e)) == keys_of(es).push(e.0@),
        keys_of(es.push(e)).no_duplicates(),
        map_of(es.push(e)) == map_of(es).insert(e.0@, e.1),
{
    let ns = es.push(e);
    let n = es.len() as int;
    assert(keys_of(ns) =~= keys_of(es).push(e.0@));
    assert forall|a: int, b: int|
        0 <= a < keys_of(ns).len() && 0 <= b < keys_of(ns).len() && a != b implies keys_of(ns)[a]
        != keys_of(ns)[b] by {
        if a < n && b < n {
            assert(keys_of(ns)[a] == keys_of(es)[a]);
            assert(keys_of(ns)[b] == keys_of(es)[b]);
        } else if a < n {
            assert(keys_of(es).contains(keys_of(es)[a]));
        } else {
            assert(keys_of(es).contains(keys_of(es)[b]));
        }
    }
    assert forall|q: K::V| #[trigger] map_of(ns).dom().contains(q) implies map_of(ns)[q]
        == map_of(es).insert(e.0@, e.1)[q] by {
        lemma_map_dom(ns, q);
        let j = choose|j: int| 0 <= j < ns.len() && ns[j].0@ == q;
        lemma_map_at(ns, j);
        if j < n {
            lemma_map_at(es, j);
        }
    }
    assert forall|q: K::V| #[trigger] map_of(es).insert(e.0@, e.1).dom().contains(q) implies map_of(ns).dom().contains(q) by {
        lemma_map_dom(ns, q);
        lemma_map_dom(es, q);
        if q != e.0@ {
            let j = choose|j: int| 0 <= j < es.len() && es[j].0@ == q;
            assert(ns[j].0@ == q);
        } else {
            assert(ns[n].0@ == q);
        }
    }
    assert(map_of(ns) =~= map_of(es).insert(e.0@, e.1));
}

/// Dropping the entry at one position removes its key from the map.
proof fn lemma_map_remove<K: EntryKey, V>(es: Seq<(K, V)>, i: int)
    requires
        keys_of(es).no_duplicates(),
        0 <= i < es.len(),
    ensures
        keys_of(es.remove(i)) == keys_of(es).remove(i),
        keys_of(es.remove(i)).no_duplicates(),
        map_of(es.remove(i)) == map_of(es).remove(es[i].0@),
{
    let ns = es.remove(i);
    let k = es[i].0@;
    assert(keys_of(ns) =~= keys_of(es).remove(i));
    assert forall|a: int, b: int|
        0 <= a < keys_of(ns).len() && 0 <= b < keys_of(ns).len() && a != b implies keys_of(ns)[a]
        != keys_of(ns)[b] by {
        let oa = if a < i { a } else { a + 1 };
        let ob = if b < i { b } else { b + 1 };
        assert(keys_of(ns)[a] == keys_of(es)[oa]);
        assert(keys_of(ns)[b] == keys_of(es)[ob]);
    }
    assert forall|q: K::V| #[trigger] map_of(ns).dom().contains(q) implies map_of(ns)[q]
        == map_of(es).remove(k)[q] && q != k by {
        lemma_map_dom(ns, q);
        let j = choose|j: int| 0 <= j < ns.len() && ns[j].0@ == q;
        lemma_map_at(ns, j);
        let oj = if j < i { j } else { j + 1 };
        assert(ns[j] == es[oj]);
        lemma_map_at(es, oj);
        assert(keys_of(es)[oj] == q);
        assert(keys_of(es)[i] == k);
    }
    assert forall|q: K::V| #[trigger] map_of(es).remove(k).dom().contains(q) implies map_of(ns).dom().contains(q) by {
        lemma_map_dom(es, q);
        lemma_map_dom(ns, q);
        let j = choose|j: int| 0 <= j < es.len() && es[j].0@ == q;
        assert(j != i);
        let nj = if j < i { j } else { j - 1 };
        assert(ns[nj].0@ == q);
    }
    assert(map_of(ns) =~= map_of(es).remove(k));
}

proof fn lemma_filter_all<T>(s: Seq<T>, f: spec_fn(T) -> bool)
    requires
        forall|i: int| 0 <= i < s.len() ==> f(#[trigger] s[i]),
    ensures
        s.filter(f) == s,
    decreases s.len(),
{
    reveal_with_fuel(Seq::filter, 1);
    if s.len() > 0 {
        lemma_filter_all(s.drop_last(), f);
        assert(s.drop_last().push(s.last()) =~= s);
    } else {
        assert(s =~= Seq::<T>::empty());
    }
}

proof fn lemma_filter_remove_unique<T>(s: Seq<T>, i: int)
    requires
        0 <= i < s.len(),
        s.no_duplicates(),
    ensures
        s.filter(|q: T| q != s[i]) == s.remove(i),
    decreases s.len(),
{
    let k = s[i];
    let f = |q: T| q != k;
    reveal_with_fuel(Seq::filter, 1);
    if i == s.len() - 1 {
        assert forall|j: int| 0 <= j < s.drop_last().len() implies f(#[trigger] s.drop_last()[j]) by {
            assert(s[j] != s[i]);
        }
        lemma_filter_all(s.drop_last(), f);
        assert(s.remove(i) =~= s.drop_last());
    } else {
        let t = s.drop_last();
        assert(t[i] == k);
        assert(t.no_duplicates());
        lemma_filter_remove_unique(t, i);
        assert(s.last() != k);
        assert(s.remove(i) =~= t.remove(i).push(s.last()));
        assert(s.drop_last() == t);
    }
}

proof fn lemma_filter_absent<T>(s: Seq<T>, k: T)
    requires
        !s.contains(k),
    ensures
        s.filter(|q: T| q != k) == s,
{
    let f = |q: T| q != k;
    assert forall|i: int| 0 <= i < s.len() implies f(#[trigger] s[i]) by {
        assert(s.contains(s[i]));
    }
    lemma_filter_all(s, f);
}

/// A map kept as a list of entries in the order in which their keys were
/// first inserted. No key occurs twice.
pub struct KeyedList<K: EntryKey, V> {
    entries: Vec<(K, V)>,
}

impl<K: EntryKey, V> KeyedList<K, V> {
    #[verifier::type_invariant]
    closed spec fn distinct_keys(self) -> bool {
        keys_of(self.entries@).no_duplicates()
    }

    /// The keys, in insertion order.
    pub closed spec fn keys(self) -> Seq<K::V> {
        keys_of(self.entries@)
    }

    /// The map from each key to its value.
    pub closed spec fn map(self) -> Map<K::V, V> {
        map_of(self.entries@)
    }

    /// An empty list.
    pub fn new() -> (res: Self)
        ensures
            res.map() == Map::<K::V, V>::empty(),
            res.keys() == Seq::<K::V>::empty(),
    {
        let res = KeyedList { entries: Vec::new() };
        assert(res.keys() =~= Seq::<K::V>::empty());
        assert(res.map() =~= Map::<K::V, V>::empty());
        res
    }

    /// The number of keys. The keys never repeat, and they are exactly the
    /// keys of the map.
    pub fn len(&self) -> (res: usize)
        ensures
            res == self.keys().len(),
            self.keys().no_duplicates(),
            self.keys().to_set() == self.map().dom(),
            res == self.map().dom().len(),
    {
        proof {
            use_type_invariant(self);
            let ks = self.keys();
            assert(ks.to_set() =~= self.map().dom());
            ks.unique_seq_to_set();
        }
        self.entries.len()
    }

    /// Whether there are no keys.
    pub fn is_empty(&self) -> (res: bool)
        ensures
            res <==> self.keys().len() == 0,
            res <==> self.map().dom() == Set::<K::V>::empty(),
    {
        proof {
            use_type_invariant(self);
            if self.keys().len() != 0 {
                lemma_map_at(self.entries@, 0);
                assert(self.map().dom().contains(self.entries@[0].0@));
            } else {
                assert(self.map().dom() =~= Set::<K::V>::empty());
            }
            use_type_invariant(self);
        }
        self.entries.len() == 0
    }

    fn find(&self, key: &K) -> (res: Option<usize>)
        ensures
            res matches Some(i) ==> i < self.entries@.len() && self.entries@[i as int].0@ == key@,
            res is None ==> !self.map().dom().contains(key@) && !self.keys().contains(key@),
    {
        let n = self.entries.len();
        let mut i: usize = 0;
        while i < n
            invariant
                n == self.entries@.len(),
                i <= n,
                forall|j: int| 0 <= j < i ==> self.entries@[j].0@ != key@,
            decreases n - i,
        {
            if self.entries[i].0.same_key(key) {
                return Some(i);
            }
            i = i + 1;
        }
        proof { lemma_map_dom(self.entries@, key@); }
        None
    }

    /// Whether the key is present.
    pub fn contains_key(&self, key: &K) -> (res: bool)
        ensures
            res == self.map().dom().contains(key@),
    {
        proof { use_type_invariant(self); }
        match self.find(key) {
            Some(i) => {
                proof { lemma_map_at(self.entries@, i as int); }
                true
            },
            None => false,
        }
    }

    /// The value stored under the key, if any.
    pub fn get(&self, key: &K) -> (res: Option<&V>)
        ensures
            res is Some <==> self.map().dom().contains(key@),
            res matches Some(v) ==> *v == self.map()[key@],
    {
        proof { use_type_invariant(self); }
        match self.find(key) {
            Some(i) => {
                proof { lemma_map_at(self.entries@, i as int); }
                Some(&self.entries[i].1)
            },
            None => None,
        }
    }

    /// The key and value at a position in insertion order.
    pub fn entry_at(&self, i: usize) -> (res: (&K, &V))
        requires
            i < self.keys().len(),
        ensures
            res.0@ == self.keys()[i as int],
            self.map().dom().contains(res.0@),
            *res.1 == self.map()[res.0@],
    {
        proof {
            use_type_invariant(self);
            lemma_map_at(self.entries@, i as int);
        }
        let e = &self.entries[i];
        (&e.0, &e.1)
    }

    /// Stores the value under the key, returning the value it replaces.
    /// A new key goes last; a present key keeps its place.
    pub fn insert(&mut self, key: K, value: V) -> (res: Option<V>)
        ensures
            final(self).map() == old(self).map().insert(key@, value),
            old(self).map().dom().contains(key@) ==> {
                &&& res == Some(old(self).map()[key@])
                &&& final(self).keys() == old(self).keys()
            },
            !old(self).map().dom().contains(key@) ==> {
                &&& res is None
                &&& final(self).keys() == old(self).keys().push(key@)
            },
    {
        proof { use_type_invariant(&*self); }
        let ghost es = self.entries@;
        match self.find(&key) {
            Some(i) => {
                proof {
                    lemma_map_at(es, i as int);
                    lemma_map_update(es, i as int, (key, value));
                }
                let mut entries = Vec::new();
                std::mem::swap(&mut entries, &mut self.entries);
                let (_, old_value) = entries.remove(i);
                entries.insert(i, (key, value));
                assert(entries@ == es.update(i as int, (key, value)));
                self.entries = entries;
                Some(old_value)
            },
            None => {
                proof { lemma_map_push(es, (key, value)); }
                let mut entries = Vec::new();
                std::mem::swap(&mut entries, &mut self.entries);
                entries.push((key, value));
                self.entries = entries;
                None
            },
        }
    }

    /// Removes the key, returning its value. The other keys keep their order.
    pub fn remove(&mut self, key: &K) -> (res: Option<V>)
        ensures
            final(self).map() == old(self).map().remove(key@),
            res is Some <==> old(self).map().dom().contains(key@),
            res matches Some(v) ==> v == old(self).map()[key@],
            final(self).keys() == old(self).keys().filter(|k: K::V| k != key@),
    {
        proof { use_type_invariant(&*self); }
        let ghost es = self.entries@;
        match self.find(key) {
            Some(i) => {
                proof {
                    lemma_map_at(es, i as int);
                    lemma_map_remove(es, i as int);
                    assert(keys_of(es)[i as int] == key@);
                    lemma_filter_remove_unique(keys_of(es), i as int);
                }
                let mut entries = Vec::new();
                std::mem::swap(&mut entries, &mut self.entries);
                let (_, v) = entries.remove(i);
                self.entries = entries;
                Some(v)
            },
            None => {
                proof {
                    assert(map_of(es).remove(key@) =~= map_of(es));
                    lemma_filter_absent(keys_of(es), key@);
                }
                None
            },
        }
    }
}

} // verus!

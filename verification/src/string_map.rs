//! A map from strings to values, kept as a list of distinct keys.
use vstd::prelude::*;
use crate::strs::str_eq;

verus! {

/// Whether no two entries share a key.
pub open spec fn keys_distinct<V>(e: Seq<(String, V)>) -> bool {
    forall|i: int, j: int| 0 <= i < e.len() && 0 <= j < e.len() && i != j ==> (#[trigger] e[i]).0@ != (#[trigger] e[j]).0@
}

/// Whether some entry has key `k`.
pub open spec fn has_key<V>(e: Seq<(String, V)>, k: Seq<char>) -> bool {
    exists|i: int| 0 <= i < e.len() && (#[trigger] e[i]).0@ == k
}

/// The position of an entry with key `k`.
pub open spec fn key_index<V>(e: Seq<(String, V)>, k: Seq<char>) -> int {
    choose|i: int| 0 <= i < e.len() && (#[trigger] e[i]).0@ == k
}

/// The map that a list of entries with distinct keys stands for.
pub open spec fn entries_map<V>(e: Seq<(String, V)>) -> Map<Seq<char>, V> {
    Map::new(|k: Seq<char>| has_key(e, k), |k: Seq<char>| e[key_index(e, k)].1)
}

/// The keys of a list of entries, in order.
pub open spec fn entries_keys<V>(e: Seq<(String, V)>) -> Seq<Seq<char>> {
    e.map_values(|p: (String, V)| p.0@)
}

/// A map from strings to values. Keys are compared by their characters.
#[derive(Debug)]
pub struct StringMap<V> {
    entries: Vec<(String, V)>,
}

proof fn lemma_key_index<V>(e: Seq<(String, V)>, i: int)
    requires
        keys_distinct(e),
        0 <= i < e.len(),
    ensures
        has_key(e, e[i].0@),
        key_index(e, e[i].0@) == i,
{
    let k = e[i].0@;
    assert(has_key(e, k));
    let j = key_index(e, k);
    if j != i {
        assert(e[j].0@ == e[i].0@);
    }
}

proof fn lemma_push<V>(e: Seq<(String, V)>, key: String, value: V)
    requires
        keys_distinct(e),
        !has_key(e, key@),
    ensures
        keys_distinct(e.push((key, value))),
        entries_map(e.push((key, value))) == entries_map(e).insert(key@, value),
{
    let e2 = e.push((key, value));
    assert forall|i: int, j: int| 0 <= i < e2.len() && 0 <= j < e2.len() && i != j implies (#[trigger] e2[i]).0@ != (#[trigger] e2[j]).0@ by {
        if i < e.len() && j < e.len() {
            assert(e2[i] == e[i] && e2[j] == e[j]);
        } else if i < e.len() {
            assert(e2[i] == e[i]);
        } else {
            assert(e2[j] == e[j]);
        }
    }
    let m2 = entries_map(e2);
    let m1 = entries_map(e).insert(key@, value);
    assert forall|k: Seq<char>| #[trigger] m2.contains_key(k) <==> m1.contains_key(k) by {
        if has_key(e2, k) {
            let i = choose|i: int| 0 <= i < e2.len() && (#[trigger] e2[i]).0@ == k;
            if i < e.len() {
                assert(e2[i] == e[i]);
            }
        }
        if has_key(e, k) {
            let i = choose|i: int| 0 <= i < e.len() && (#[trigger] e[i]).0@ == k;
            assert(e2[i] == e[i]);
        }
        if k == key@ {
            assert(e2[e.len() as int].0@ == k);
        }
    }
    assert forall|k: Seq<char>| #[trigger] m2.contains_key(k) implies m2[k] == m1[k] by {
        let i = choose|i: int| 0 <= i < e2.len() && (#[trigger] e2[i]).0@ == k;
        lemma_key_index(e2, i);
        if i < e.len() {
            assert(e2[i] == e[i]);
            lemma_key_index(e, i);
        }
    }
    assert(m2 =~= m1);
}

proof fn lemma_update<V>(e: Seq<(String, V)>, i: int, key: String, value: V)
    requires
        keys_distinct(e),
        0 <= i < e.len(),
        e[i].0@ == key@,
    ensures
        keys_distinct(e.update(i, (key, value))),
        entries_map(e.update(i, (key, value))) == entries_map(e).insert(key@, value),
{
    let e2 = e.update(i, (key, value));
    assert forall|a: int, b: int| 0 <= a < e2.len() && 0 <= b < e2.len() && a != b implies (#[trigger] e2[a]).0@ != (#[trigger] e2[b]).0@ by {
        assert(e2[a].0@ == e[a].0@);
        assert(e2[b].0@ == e[b].0@);
    }
    let m2 = entries_map(e2);
    let m1 = entries_map(e).insert(key@, value);
    lemma_key_index(e, i);
    assert forall|k: Seq<char>| #[trigger] m2.contains_key(k) <==> m1.contains_key(k) by {
        if has_key(e2, k) {
            let j = choose|j: int| 0 <= j < e2.len() && (#[trigger] e2[j]).0@ == k;
            assert(e[j].0@ == k);
        }
        if has_key(e, k) {
            let j = choose|j: int| 0 <= j < e.len() && (#[trigger] e[j]).0@ == k;
            assert(e2[j].0@ == k);
        }
    }
    assert forall|k: Seq<char>| #[trigger] m2.contains_key(k) implies m2[k] == m1[k] by {
        let j = choose|j: int| 0 <= j < e2.len() && (#[trigger] e2[j]).0@ == k;
        lemma_key_index(e2, j);
        if j != i {
            assert(e2[j] == e[j]);
            lemma_key_index(e, j);
        }
    }
    assert(m2 =~= m1);
}

proof fn lemma_remove<V>(e: Seq<(String, V)>, i: int)
    requires
        keys_distinct(e),
        0 <= i < e.len(),
    ensures
        keys_distinct(e.remove(i)),
        entries_map(e.remove(i)) == entries_map(e).remove(e[i].0@),
{
    let e2 = e.remove(i);
    assert forall|a: int, b: int| 0 <= a < e2.len() && 0 <= b < e2.len() && a != b implies (#[trigger] e2[a]).0@ != (#[trigger] e2[b]).0@ by {
        let a1 = if a < i { a } else { a + 1 };
        let b1 = if b < i { b } else { b + 1 };
        assert(e2[a] == e[a1]);
        assert(e2[b] == e[b1]);
    }
    let m2 = entries_map(e2);
    let m1 = entries_map(e).remove(e[i].0@);
    lemma_key_index(e, i);
    assert forall|k: Seq<char>| #[trigger] m2.contains_key(k) <==> m1.contains_key(k) by {
        if has_key(e2, k) {
            let j = choose|j: int| 0 <= j < e2.len() && (#[trigger] e2[j]).0@ == k;
            let j1 = if j < i { j } else { j + 1 };
            assert(e2[j] == e[j1]);
            assert(e[j1].0@ == k);
        }
        if has_key(e, k) && k != e[i].0@ {
            let j = choose|j: int| 0 <= j < e.len() && (#[trigger] e[j]).0@ == k;
            if j < i {
                assert(e2[j] == e[j]);
            } else {
                assert(e2[j - 1] == e[j]);
            }
        }
    }
    assert forall|k: Seq<char>| #[trigger] m2.contains_key(k) implies m2[k] == m1[k] by {
        let j = choose|j: int| 0 <= j < e2.len() && (#[trigger] e2[j]).0@ == k;
        lemma_key_index(e2, j);
        let j1 = if j < i { j } else { j + 1 };
        assert(e2[j] == e[j1]);
        lemma_key_index(e, j1);
    }
    assert(m2 =~= m1);
}

impl<V> StringMap<V> {
    /// Well-formedness: no key is stored twice.
    pub closed spec fn wf(&self) -> bool {
        keys_distinct(self.entries@)
    }

    /// The map's contents.
    pub closed spec fn map(&self) -> Map<Seq<char>, V> {
        entries_map(self.entries@)
    }

    /// The keys in the order in which they are stored.
    pub closed spec fn key_list(&self) -> Seq<Seq<char>> {
        entries_keys(self.entries@)
    }

    /// The stored keys are distinct and are exactly the map's keys.
    pub proof fn lemma_keys(&self)
        requires
            self.wf(),
        ensures
            self.key_list().no_duplicates(),
            forall|k: Seq<char>| #[trigger] self.map().contains_key(k) <==> self.key_list().contains(k),
            self.key_list().len() == self.map().dom().len(),
            self.map().dom().finite(),
    {
        let e = self.entries@;
        let ks = entries_keys(e);
        assert forall|i: int, j: int| 0 <= i < ks.len() && 0 <= j < ks.len() && i != j implies ks[i] != ks[j] by {
            assert(ks[i] == e[i].0@ && ks[j] == e[j].0@);
        }
        assert forall|k: Seq<char>| #[trigger] self.map().contains_key(k) <==> ks.contains(k) by {
            if has_key(e, k) {
                let i = choose|i: int| 0 <= i < e.len() && (#[trigger] e[i]).0@ == k;
                assert(ks[i] == k);
            }
            if ks.contains(k) {
                let i = choose|i: int| 0 <= i < ks.len() && ks[i] == k;
                assert(e[i].0@ == k);
            }
        }
        assert(self.map().dom() =~= ks.to_set());
        ks.unique_seq_to_set();
    }

    /// An empty map.
    pub fn new() -> (r: Self)
        ensures
            r.wf(),
            r.map() == Map::<Seq<char>, V>::empty(),
            r.key_list() == Seq::<Seq<char>>::empty(),
    {
        let r = StringMap { entries: Vec::new() };
        assert(r.map() =~= Map::<Seq<char>, V>::empty());
        assert(r.key_list() =~= Seq::<Seq<char>>::empty());
        r
    }

    /// The number of entries.
    pub fn len(&self) -> (r: usize)
        requires
            self.wf(),
        ensures
            r == self.map().dom().len(),
            r == self.key_list().len(),
    {
        proof {
            self.lemma_keys();
        }
        self.entries.len()
    }

    /// The position of `key`, if present.
    fn find(&self, key: &str) -> (r: Option<usize>)
        requires
            self.wf(),
        ensures
            r is None ==> !has_key(self.entries@, key@),
            r matches Some(i) ==> i < self.entries@.len() && self.entries@[i as int].0@ == key@,
    {
        let mut i: usize = 0;
        while i < self.entries.len()
            invariant
                i <= self.entries@.len(),
                forall|j: int| 0 <= j < i ==> (#[trigger] self.entries@[j]).0@ != key@,
            decreases self.entries@.len() - i,
        {
            if str_eq(self.entries[i].0.as_str(), key) {
                return Some(i);
            }
            i = i + 1;
        }
        None
    }

    /// Whether `key` is present.
    pub fn contains_key(&self, key: &str) -> (r: bool)
        requires
            self.wf(),
        ensures
            r == self.map().contains_key(key@),
    {
        self.find(key).is_some()
    }

    /// The value stored under `key`.
    pub fn get(&self, key: &str) -> (r: Option<&V>)
        requires
            self.wf(),
        ensures
            self.map().contains_key(key@) ==> r == Some(&self.map()[key@]),
            !self.map().contains_key(key@) ==> r is None,
    {
        match self.find(key) {
            Some(i) => {
                proof {
                    lemma_key_index(self.entries@, i as int);
                }
                Some(&self.entries[i].1)
            },
            None => None,
        }
    }

    /// Stores `value` under `key`; a key already present keeps its place in the key list.
    pub fn insert(&mut self, key: String, value: V)
        requires
            old(self).wf(),
        ensures
            final(self).wf(),
            final(self).map() == old(self).map().insert(key@, value),
            old(self).map().contains_key(key@) ==> final(self).key_list() == old(self).key_list(),
            !old(self).map().contains_key(key@) ==> final(self).key_list() == old(self).key_list().push(key@),
    {
        match self.find(key.as_str()) {
            Some(i) => {
                proof {
                    lemma_update(self.entries@, i as int, key, value);
                    assert(entries_keys(self.entries@.update(i as int, (key, value))) =~= entries_keys(self.entries@));
                }
                self.entries.set(i, (key, value));
            },
            None => {
                proof {
                    lemma_push(self.entries@, key, value);
                    assert(entries_keys(self.entries@.push((key, value))) =~= entries_keys(self.entries@).push(key@));
                }
                self.entries.push((key, value));
            },
        }
    }

    /// Removes the entry with `key`, returning its value.
    pub fn remove(&mut self, key: &str) -> (r: Option<V>)
        requires
            old(self).wf(),
        ensures
            final(self).wf(),
            final(self).map() == old(self).map().remove(key@),
            old(self).map().contains_key(key@) ==> r == Some(old(self).map()[key@])
                && final(self).key_list() == old(self).key_list().remove(old(self).key_list().index_of(key@)),
            !old(self).map().contains_key(key@) ==> r is None && final(self).key_list() == old(self).key_list(),
    {
        match self.find(key) {
            Some(i) => {
                proof {
                    lemma_remove(self.entries@, i as int);
                    lemma_key_index(self.entries@, i as int);
                    let ks = entries_keys(self.entries@);
                    assert(ks[i as int] == key@);
                    let j = ks.index_of(key@);
                    assert(ks.contains(key@));
                    assert(ks[j] == key@);
                    assert(self.entries@[j].0@ == ks[j]);
                    assert(j == i as int);
                    assert(entries_keys(self.entries@.remove(i as int)) =~= ks.remove(i as int));
                }
                let (_, v) = self.entries.remove(i);
                Some(v)
            },
            None => {
                assert(old(self).map().remove(key@) =~= old(self).map());
                None
            },
        }
    }

    /// Removes every entry.
    pub fn clear(&mut self)
        requires
            old(self).wf(),
        ensures
            final(self).wf(),
            final(self).map() == Map::<Seq<char>, V>::empty(),
            final(self).key_list() == Seq::<Seq<char>>::empty(),
    {
        self.entries = Vec::new();
        assert(self.map() =~= Map::<Seq<char>, V>::empty());
        assert(self.key_list() =~= Seq::<Seq<char>>::empty());
    }

    /// The key stored at position `index`.
    pub fn key_at(&self, index: usize) -> (r: Option<&String>)
        requires
            self.wf(),
        ensures
            index < self.key_list().len() ==> (r matches Some(k) && k@ == self.key_list()[index as int]),
            index >= self.key_list().len() ==> r is None,
    {
        if index < self.entries.len() {
            Some(&self.entries[index].0)
        } else {
            None
        }
    }

    /// The value stored at position `index`.
    pub fn value_at(&self, index: usize) -> (r: &V)
        requires
            self.wf(),
            index < self.key_list().len(),
        ensures
            *r == self.map()[self.key_list()[index as int]],
    {
        proof {
                lemma_key_index(self.entries@, index as int);
        }
        &self.entries[index].1
    }
}

} // verus!

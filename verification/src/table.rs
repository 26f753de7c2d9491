//! A small string-keyed table that keeps its entries in insertion order.
//!
//! Its abstract view is a `Map` from the key's characters to the view of the
//! value. Keys are kept unique, so every key names exactly one entry.
use vstd::prelude::*;

verus! {

/// Entries `(key, value)`, at most one per key, in the order they were first inserted.
pub struct KeyedTable<V> {
    entries: Vec<(String, V)>,
}

/// Some entry of `s` carries the key `k`.
pub open spec fn has_key<V>(s: Seq<(String, V)>, k: Seq<char>) -> bool {
    exists|i: int| 0 <= i < s.len() && (#[trigger] s[i]).0@ == k
}

/// An index of `s` whose entry carries the key `k` (meaningful when `has_key(s, k)`).
pub open spec fn index_of_key<V>(s: Seq<(String, V)>, k: Seq<char>) -> int {
    choose|i: int| 0 <= i < s.len() && (#[trigger] s[i]).0@ == k
}

/// No two entries of `s` carry the same key.
pub open spec fn keys_unique<V>(s: Seq<(String, V)>) -> bool {
    forall|i: int, j: int|
        0 <= i < s.len() && 0 <= j < s.len() && i != j ==> (#[trigger] s[i]).0@ != (#[trigger] s[j]).0@
}

/// The map that a sequence of entries stands for.
pub open spec fn entries_map<V: View>(s: Seq<(String, V)>) -> Map<Seq<char>, V::V> {
    Map::new(|k: Seq<char>| has_key(s, k), |k: Seq<char>| s[index_of_key(s, k)].1@)
}

/// With unique keys, the entry at `i` is the one the map reads for its key.
pub proof fn lemma_entry_in_map<V: View>(s: Seq<(String, V)>, i: int)
    requires
        keys_unique(s),
        0 <= i < s.len(),
    ensures
        entries_map(s).contains_key(s[i].0@),
        entries_map(s)[s[i].0@] == s[i].1@,
        index_of_key(s, s[i].0@) == i,
{
    assert(has_key(s, s[i].0@));
    let j = index_of_key(s, s[i].0@);
    assert(0 <= j < s.len() && s[j].0@ == s[i].0@);
}

/// Appending an entry with a fresh key inserts it into the map.
pub proof fn lemma_push<V: View>(s: Seq<(String, V)>, e: (String, V))
    requires
        keys_unique(s),
        !has_key(s, e.0@),
    ensures
        keys_unique(s.push(e)),
        entries_map(s.push(e)) =~= entries_map(s).insert(e.0@, e.1@),
{
    let t = s.push(e);
    assert forall|i: int, j: int|
        0 <= i < t.len() && 0 <= j < t.len() && i != j implies (#[trigger] t[i]).0@ != (
        #[trigger] t[j]).0@ by {
        if i < s.len() && j < s.len() {
            assert(t[i] == s[i] && t[j] == s[j]);
        } else if i < s.len() {
            assert(t[i] == s[i]);
        } else {
            assert(t[j] == s[j]);
        }
    }
    assert forall|k: Seq<char>| #[trigger] has_key(t, k) == (has_key(s, k) || k == e.0@) by {
        if has_key(s, k) {
            let i = index_of_key(s, k);
            assert(t[i] == s[i]);
        }
        if k == e.0@ {
            assert(t[s.len() as int] == e);
        }
        if has_key(t, k) {
            let i = index_of_key(t, k);
            if i < s.len() {
                assert(t[i] == s[i]);
            }
        }
    }
    assert forall|k: Seq<char>| #[trigger] entries_map(t).contains_key(k) implies entries_map(
        t,
    )[k] == entries_map(s).insert(e.0@, e.1@)[k] by {
        if k == e.0@ {
            lemma_entry_in_map(t, s.len() as int);
        } else {
            let i = index_of_key(s, k);
            assert(t[i] == s[i]);
            lemma_entry_in_map(t, i);
            lemma_entry_in_map(s, i);
        }
    }
}

/// Overwriting the value of the entry at `i`, key kept, updates the map at that key.
pub proof fn lemma_update<V: View>(s: Seq<(String, V)>, i: int, e: (String, V))
    requires
        keys_unique(s),
        0 <= i < s.len(),
        e.0@ == s[i].0@,
    ensures
        keys_unique(s.update(i, e)),
        entries_map(s.update(i, e)) =~= entries_map(s).insert(e.0@, e.1@),
{
    let t = s.update(i, e);
    assert forall|a: int, b: int|
        0 <= a < t.len() && 0 <= b < t.len() && a != b implies (#[trigger] t[a]).0@ != (
        #[trigger] t[b]).0@ by {
        assert(t[a].0@ == s[a].0@);
        assert(t[b].0@ == s[b].0@);
    }
    assert forall|k: Seq<char>| #[trigger] has_key(t, k) == has_key(s, k) by {
        if has_key(s, k) {
            let j = index_of_key(s, k);
            assert(t[j].0@ == s[j].0@);
        }
        if has_key(t, k) {
            let j = index_of_key(t, k);
            assert(t[j].0@ == s[j].0@);
        }
    }
    lemma_entry_in_map(s, i);
    assert forall|k: Seq<char>| #[trigger] entries_map(t).contains_key(k) implies entries_map(
        t,
    )[k] == entries_map(s).insert(e.0@, e.1@)[k] by {
        let j = index_of_key(t, k);
        assert(t[j].0@ == s[j].0@);
        lemma_entry_in_map(t, j);
        if j != i {
            assert(t[j] == s[j]);
            lemma_entry_in_map(s, j);
        }
    }
}

/// Removing the entry at `i` removes its key from the map.
pub proof fn lemma_remove<V: View>(s: Seq<(String, V)>, i: int)
    requires
        keys_unique(s),
        0 <= i < s.len(),
    ensures
        keys_unique(s.remove(i)),
        entries_map(s.remove(i)) =~= entries_map(s).remove(s[i].0@),
{
    let t = s.remove(i);
    let k0 = s[i].0@;
    assert forall|a: int| 0 <= a < t.len() implies #[trigger] t[a] == s[if a < i {
        a
    } else {
        a + 1
    }] by {}
    assert forall|a: int, b: int|
        0 <= a < t.len() && 0 <= b < t.len() && a != b implies (#[trigger] t[a]).0@ != (
        #[trigger] t[b]).0@ by {
        let a2 = if a < i { a } else { a + 1 };
        let b2 = if b < i { b } else { b + 1 };
        assert(t[a] == s[a2] && t[b] == s[b2]);
    }
    assert forall|k: Seq<char>| #[trigger] has_key(t, k) == (has_key(s, k) && k != k0) by {
        if has_key(t, k) {
            let a = index_of_key(t, k);
            let a2 = if a < i { a } else { a + 1 };
            assert(t[a] == s[a2]);
        }
        if has_key(s, k) && k != k0 {
            let a = index_of_key(s, k);
            assert(a != i);
            let b = if a < i { a } else { a - 1 };
            assert(t[b] == s[a]);
        }
    }
    assert forall|k: Seq<char>| #[trigger] entries_map(t).contains_key(k) implies entries_map(
        t,
    )[k] == entries_map(s).remove(k0)[k] by {
        let a = index_of_key(t, k);
        let a2 = if a < i { a } else { a + 1 };
        assert(t[a] == s[a2]);
        lemma_entry_in_map(t, a);
        lemma_entry_in_map(s, a2);
    }
}

impl<V: View> View for KeyedTable<V> {
    type V = Map<Seq<char>, V::V>;

    closed spec fn view(&self) -> Map<Seq<char>, V::V> {
        entries_map(self.entries@)
    }
}

impl<V: View> KeyedTable<V> {
    /// The table's invariant: no key occurs twice.
    pub closed spec fn wf(&self) -> bool {
        keys_unique(self.entries@)
    }

    /// The values, in the order in which their keys were first inserted.
    pub closed spec fn values_seq(&self) -> Seq<V> {
        self.entries@.map_values(|e: (String, V)| e.1)
    }

    /// The keys, in the same order as `values_seq`.
    pub closed spec fn keys_seq(&self) -> Seq<Seq<char>> {
        self.entries@.map_values(|e: (String, V)| e.0@)
    }

    /// Facts tying the ordered views to the map view.
    pub proof fn lemma_ordered_views(&self)
        requires
            self.wf(),
        ensures
            self.values_seq().len() == self.keys_seq().len(),
            forall|i: int, j: int|
                0 <= i < self.keys_seq().len() && 0 <= j < self.keys_seq().len() && i != j
                    ==> self.keys_seq()[i] != self.keys_seq()[j],
            forall|i: int|
                #![trigger self.keys_seq()[i]]
                0 <= i < self.keys_seq().len() ==> self@.contains_key(self.keys_seq()[i])
                    && self@[self.keys_seq()[i]] == self.values_seq()[i]@,
            forall|k: Seq<char>|
                #[trigger] self@.contains_key(k) ==> exists|i: int|
                    0 <= i < self.keys_seq().len() && #[trigger] self.keys_seq()[i] == k,
    {
        let s = self.entries@;
        assert forall|i: int| #![trigger self.keys_seq()[i]] 0 <= i < self.keys_seq().len() implies self@.contains_key(
            self.keys_seq()[i],
        ) && self@[self.keys_seq()[i]] == self.values_seq()[i]@ by {
            lemma_entry_in_map(s, i);
        }
        assert forall|k: Seq<char>| #[trigger] self@.contains_key(k) implies exists|i: int|
            0 <= i < self.keys_seq().len() && #[trigger] self.keys_seq()[i] == k by {
            let i = index_of_key(s, k);
            assert(self.keys_seq()[i] == k);
        }
        assert forall|i: int, j: int|
            0 <= i < self.keys_seq().len() && 0 <= j < self.keys_seq().len() && i != j implies self.keys_seq()[i]
            != self.keys_seq()[j] by {
            assert(s[i].0@ == self.keys_seq()[i]);
            assert(s[j].0@ == self.keys_seq()[j]);
        }
    }

    /// An empty table.
    pub fn new() -> (t: Self)
        ensures
            t.wf(),
            t@ == Map::<Seq<char>, V::V>::empty(),
            t.values_seq() == Seq::<V>::empty(),
    {
        let t = KeyedTable { entries: Vec::new() };
        assert(t@ =~= Map::<Seq<char>, V::V>::empty());
        assert(t.values_seq() =~= Seq::<V>::empty());
        t
    }

    /// The position of the entry with key `k`, if there is one.
    fn find(&self, k: &String) -> (r: Option<usize>)
        requires
            self.wf(),
        ensures
            match r {
                Some(i) => i < self.entries@.len() && self.entries@[i as int].0@ == k@,
                None => !has_key(self.entries@, k@),
            },
    {
        let n = self.entries.len();
        let mut i: usize = 0;
        while i < n
            invariant
                n == self.entries@.len(),
                i <= n,
                forall|j: int| 0 <= j < i ==> (#[trigger] self.entries@[j]).0@ != k@,
            decreases n - i,
        {
            if self.entries[i].0 == *k {
                return Some(i);
            }
            i = i + 1;
        }
        None
    }

    /// Whether some entry has key `k`.
    pub fn contains_key(&self, k: &String) -> (r: bool)
        requires
            self.wf(),
        ensures
            r == self@.contains_key(k@),
    {
        self.find(k).is_some()
    }

    /// The value stored under `k`, if any.
    pub fn get(&self, k: &String) -> (r: Option<&V>)
        requires
            self.wf(),
        ensures
            match r {
                Some(v) => self@.contains_key(k@) && v@ == self@[k@],
                None => !self@.contains_key(k@),
            },
    {
        match self.find(k) {
            Some(i) => {
                proof {
                    lemma_entry_in_map(self.entries@, i as int);
                }
                Some(&self.entries[i].1)
            },
            None => None,
        }
    }

    /// Stores `v` under `k`: a new key goes last, an existing one keeps its place.
    pub fn insert(&mut self, k: String, v: V)
        requires
            old(self).wf(),
        ensures
            final(self).wf(),
            final(self)@ == old(self)@.insert(k@, v@),
            old(self)@.contains_key(k@) ==> final(self).keys_seq() == old(self).keys_seq(),
            !old(self)@.contains_key(k@) ==> final(self).keys_seq() == old(self).keys_seq().push(k@),
            !old(self)@.contains_key(k@) ==> final(self).values_seq() == old(self).values_seq().push(v),
    {
        match self.find(&k) {
            Some(i) => {
                proof {
                    lemma_update(self.entries@, i as int, (k, v));
                }
                self.entries.set(i, (k, v));
                assert(self.keys_seq() =~= old(self).keys_seq());
            },
            None => {
                proof {
                    lemma_push(self.entries@, (k, v));
                }
                self.entries.push((k, v));
                assert(self.keys_seq() =~= old(self).keys_seq().push(k@));
                assert(self.values_seq() =~= old(self).values_seq().push(v));
            },
        }
    }

    /// Takes the value stored under `k` out of the table, if there is one.
    pub fn remove(&mut self, k: &String) -> (r: Option<V>)
        requires
            old(self).wf(),
        ensures
            final(self).wf(),
            final(self)@ == old(self)@.remove(k@),
            match r {
                Some(v) => old(self)@.contains_key(k@) && v@ == old(self)@[k@],
                None => !old(self)@.contains_key(k@),
            },
    {
        match self.find(k) {
            Some(i) => {
                proof {
                    lemma_remove(self.entries@, i as int);
                    lemma_entry_in_map(self.entries@, i as int);
                }
                let e = self.entries.remove(i);
                Some(e.1)
            },
            None => {
                assert(old(self)@.remove(k@) =~= old(self)@);
                None
            },
        }
    }

    /// The values, in table order.
    pub fn values(&self) -> (r: Vec<&V>)
        ensures
            r@.len() == self.values_seq().len(),
            forall|i: int| 0 <= i < r@.len() ==> *(#[trigger] r@[i]) == self.values_seq()[i],
    {
        let mut r: Vec<&V> = Vec::new();
        let n = self.entries.len();
        let mut i: usize = 0;
        while i < n
            invariant
                n == self.entries@.len(),
                i <= n,
                r@.len() == i,
                forall|j: int| 0 <= j < i ==> *(#[trigger] r@[j]) == self.values_seq()[j],
            decreases n - i,
        {
            r.push(&self.entries[i].1);
            i = i + 1;
        }
        r
    }
}

} // verus!

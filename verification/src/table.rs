//! Association tables: a vector of entries with pairwise distinct keys, seen
//! as a finite map from key views to values.

use vstd::prelude::*;

use crate::ids::{ActorSlotKey, EntityId, TargetSlotKey};

verus! {

/// Keys whose equality is decided by their views.
pub trait KeyEq: View + Sized {
    fn key_eq(&self, other: &Self) -> (r: bool)
        ensures
            r == (self@ == other@),
    ;
}

impl KeyEq for u64 {
    fn key_eq(&self, other: &Self) -> (r: bool) {
        *self == *other
    }
}

impl KeyEq for TargetSlotKey {
    fn key_eq(&self, other: &Self) -> (r: bool) {
        self.target == other.target && self.slot_id == other.slot_id
    }
}

impl KeyEq for ActorSlotKey {
    fn key_eq(&self, other: &Self) -> (r: bool) {
        self.actor == other.actor && self.key.key_eq(&other.key)
    }
}

/// A finite map kept as a vector of entries whose keys are pairwise distinct.
pub struct KeyedTable<K: KeyEq, V> {
    entries: Vec<(K, V)>,
}

impl<K: KeyEq, V> KeyedTable<K, V> {
    #[verifier::type_invariant]
    closed spec fn distinct_keys(self) -> bool {
        forall|i: int, j: int|
            0 <= i < self.entries.len() && 0 <= j < self.entries.len() && i != j
                ==> self.entries@[i].0@ != self.entries@[j].0@
    }

    closed spec fn holds_at(self, k: K::V, i: int) -> bool {
        0 <= i < self.entries.len() && self.entries@[i].0@ == k
    }

    /// The map the table stands for.
    pub closed spec fn map(self) -> Map<K::V, V> {
        Map::new(
            |k: K::V| exists|i: int| self.holds_at(k, i),
            |k: K::V| self.entries@[choose|i: int| self.holds_at(k, i)].1,
        )
    }

    proof fn lemma_at(self, k: K::V, i: int)
        requires
            self.distinct_keys(),
            self.holds_at(k, i),
        ensures
            self.map().dom().contains(k),
            self.map()[k] == self.entries@[i].1,
    {
        let j = choose|j: int| self.holds_at(k, j);
        assert(self.holds_at(k, j));
    }

    /// An empty table.
    pub fn new() -> (r: Self)
        ensures
            r.map() == Map::<K::V, V>::empty(),
    {
        let r = KeyedTable { entries: Vec::new() };
        assert(r.map() =~= Map::<K::V, V>::empty());
        r
    }

    fn find(&self, key: &K) -> (r: Option<usize>)
        ensures
            match r {
                Some(i) => self.holds_at(key@, i as int),
                None => !self.map().dom().contains(key@),
            },
    {
        let mut i: usize = 0;
        while i < self.entries.len()
            invariant
                i <= self.entries.len(),
                forall|j: int| 0 <= j < i ==> self.entries@[j].0@ != key@,
            decreases self.entries.len() - i,
        {
            if self.entries[i].0.key_eq(key) {
                return Some(i);
            }
            i = i + 1;
        }
        None
    }

    /// Whether the table holds `key`.
    pub fn contains_key(&self, key: &K) -> (r: bool)
        ensures
            r == self.map().dom().contains(key@),
    {
        proof {
            use_type_invariant(self);
        }
        match self.find(key) {
            Some(i) => {
                proof {
                    self.lemma_at(key@, i as int);
                }
                true
            },
            None => false,
        }
    }

    /// The value held for `key`, if any.
    pub fn get(&self, key: &K) -> (r: Option<&V>)
        ensures
            match r {
                Some(v) => self.map().dom().contains(key@) && *v == self.map()[key@],
                None => !self.map().dom().contains(key@),
            },
    {
        proof {
            use_type_invariant(self);
        }
        match self.find(key) {
            Some(i) => {
                proof {
                    self.lemma_at(key@, i as int);
                }
                Some(&self.entries[i].1)
            },
            None => None,
        }
    }

    /// Holds `value` for `key`, replacing what was held before.
    pub fn insert(&mut self, key: K, value: V)
        ensures
            final(self).map() == old(self).map().insert(key@, value),
    {
        proof {
            use_type_invariant(&*self);
        }
        let ghost k = key@;
        let ghost before = *self;
        match self.find(&key) {
            Some(i) => {
                let mut entries = Vec::new();
                std::mem::swap(&mut entries, &mut self.entries);
                entries.set(i, (key, value));
                self.entries = entries;
                proof {
                    assert forall|q: K::V| #![auto] self.map().dom().contains(q)
                        == before.map().insert(k, value).dom().contains(q) by {
                        if q != k && before.map().dom().contains(q) {
                            let w = choose|j: int| before.holds_at(q, j);
                            assert(self.holds_at(q, w));
                        }
                        if self.map().dom().contains(q) && q != k {
                            let w = choose|j: int| self.holds_at(q, j);
                            assert(before.holds_at(q, w));
                        }
                        if q == k {
                            assert(self.holds_at(q, i as int));
                        }
                    }
                    assert forall|q: K::V| #![auto] self.map().dom().contains(q) implies
                        self.map()[q] == before.map().insert(k, value)[q] by {
                        let w = choose|j: int| self.holds_at(q, j);
                        self.lemma_at(q, w);
                        if q != k {
                            before.lemma_at(q, w);
                        } else {
                            assert(w == i);
                        }
                    }
                    assert(self.map() =~= before.map().insert(k, value));
                }
            },
            None => {
                let mut entries = Vec::new();
                std::mem::swap(&mut entries, &mut self.entries);
                entries.push((key, value));
                proof {
                    assert forall|j: int| 0 <= j < before.entries.len() implies
                        entries@[j].0@ != k by {
                        assert(!before.holds_at(k, j));
                    }
                }
                self.entries = entries;
                proof {
                    let n = before.entries.len() as int;
                    assert(self.holds_at(k, n));
                    assert forall|q: K::V| #![auto] self.map().dom().contains(q)
                        == before.map().insert(k, value).dom().contains(q) by {
                        if q != k && before.map().dom().contains(q) {
                            let w = choose|j: int| before.holds_at(q, j);
                            assert(self.holds_at(q, w));
                        }
                        if self.map().dom().contains(q) && q != k {
                            let w = choose|j: int| self.holds_at(q, j);
                            assert(before.holds_at(q, w));
                        }
                    }
                    assert forall|q: K::V| #![auto] self.map().dom().contains(q) implies
                        self.map()[q] == before.map().insert(k, value)[q] by {
                        let w = choose|j: int| self.holds_at(q, j);
                        self.lemma_at(q, w);
                        if q != k {
                            before.lemma_at(q, w);
                        } else {
                            self.lemma_at(q, n);
                        }
                    }
                    assert(self.map() =~= before.map().insert(k, value));
                }
            },
        }
    }

    /// Drops whatever is held for `key`.
    pub fn remove(&mut self, key: &K)
        ensures
            final(self).map() == old(self).map().remove(key@),
    {
        proof {
            use_type_invariant(&*self);
        }
        let ghost k = key@;
        let ghost before = *self;
        match self.find(key) {
            Some(i) => {
                let mut entries = Vec::new();
                std::mem::swap(&mut entries, &mut self.entries);
                let _ = entries.remove(i);
                self.entries = entries;
                proof {
                    assert forall|q: K::V| #![auto] self.map().dom().contains(q)
                        == before.map().remove(k).dom().contains(q) by {
                        if q != k && before.map().dom().contains(q) {
                            let w = choose|j: int| before.holds_at(q, j);
                            if w < i {
                                assert(self.holds_at(q, w));
                            } else {
                                assert(self.holds_at(q, w - 1));
                            }
                        }
                        if self.map().dom().contains(q) {
                            let w = choose|j: int| self.holds_at(q, j);
                            if w < i {
                                assert(before.holds_at(q, w));
                            } else {
                                assert(before.holds_at(q, w + 1));
                            }
                        }
                    }
                    assert forall|q: K::V| #![auto] self.map().dom().contains(q) implies
                        self.map()[q] == before.map().remove(k)[q] by {
                        let w = choose|j: int| self.holds_at(q, j);
                        self.lemma_at(q, w);
                        if w < i {
                            before.lemma_at(q, w);
                        } else {
                            before.lemma_at(q, w + 1);
                        }
                    }
                    assert(self.map() =~= before.map().remove(k));
                }
            },
            None => {
                assert(self.map() =~= before.map().remove(k));
            },
        }
    }

    /// Drops every entry.
    pub fn clear(&mut self)
        ensures
            final(self).map() == Map::<K::V, V>::empty(),
    {
        self.entries = Vec::new();
        assert(self.map() =~= Map::<K::V, V>::empty());
    }

    /// Number of keys held.
    pub fn len(&self) -> (r: usize)
        ensures
            r == self.map().dom().len(),
            self.map().dom().finite(),
    {
        proof {
            use_type_invariant(self);
            self.lemma_len();
        }
        self.entries.len()
    }

    proof fn lemma_len(self)
        requires
            self.distinct_keys(),
        ensures
            self.map().dom().finite(),
            self.map().dom().len() == self.entries.len(),
    {
        let n = self.entries.len() as int;
        if n == 0 {
            assert(self.map().dom() =~= Set::<K::V>::empty());
        } else {
            let keys = self.entries@.map_values(|e: (K, V)| e.0@);
            assert(self.map().dom() =~= keys.to_set()) by {
                assert forall|q: K::V| self.map().dom().contains(q) implies keys.to_set().contains(q) by {
                    let w = choose|j: int| self.holds_at(q, j);
                    assert(keys[w] == q);
                }
                assert forall|q: K::V| keys.to_set().contains(q) implies self.map().dom().contains(q) by {
                    let w = choose|j: int| 0 <= j < keys.len() && keys[j] == q;
                    assert(self.holds_at(q, w));
                }
            }
            assert(keys.no_duplicates()) by {
                assert forall|a: int, b: int| 0 <= a < keys.len() && 0 <= b < keys.len() && a != b
                    implies keys[a] != keys[b] by {}
            }
            keys.unique_seq_to_set();
        }
    }
}

impl<K: KeyEq, V> View for KeyedTable<K, V> {
    type V = Map<K::V, V>;

    open spec fn view(&self) -> Map<K::V, V> {
        self.map()
    }
}

/// Tables keyed by the slot of a target.
pub type SlotTable<V> = KeyedTable<TargetSlotKey, V>;

/// Tables keyed by an actor and the slot of a target.
pub type ActorSlotTable<V> = KeyedTable<ActorSlotKey, V>;

/// Tables keyed by an entity.
pub type EntityTable<V> = KeyedTable<EntityId, V>;

} // verus!

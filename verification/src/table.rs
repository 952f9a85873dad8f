//! A keyed store: the ledger's tables.
//!
//! A table maps 256-bit keys to records. It is kept as two parallel vectors and
//! searched linearly; no key occurs twice.

use crate::uint::U256;
use vstd::prelude::*;

verus! {

/// A finite map from numbers below 2^256 to records of type `V`.
pub struct Table<V> {
    keys: Vec<U256>,
    values: Vec<V>,
}

impl<V> Table<V> {
    /// Whether slot `i` holds the key that stands for `k`.
    spec fn holds(&self, i: int, k: nat) -> bool {
        0 <= i < self.keys.len() && self.keys[i]@ == k
    }

    /// The table's invariant: one record per key, no key twice, and finitely
    /// many of them.
    pub closed spec fn wf(&self) -> bool {
        &&& self@.dom().finite()
        &&& self.keys.len() == self.values.len()
        &&& forall|i: int, j: int|
            0 <= i < self.keys.len() && 0 <= j < self.keys.len() && i != j ==> self.keys[i]@
                != self.keys[j]@
    }
}

impl<V> View for Table<V> {
    type V = Map<nat, V>;

    /// The map the table stands for.
    closed spec fn view(&self) -> Map<nat, V> {
        Map::new(
            |k: nat| exists|i: int| self.holds(i, k),
            |k: nat| self.values[choose|i: int| self.holds(i, k)],
        )
    }
}

impl<V: Copy> Table<V> {
    /// A table holds finitely many records.
    pub proof fn lemma_finite(&self)
        requires
            self.wf(),
        ensures
            self@.dom().finite(),
    {
    }

    /// A table with no record.
    pub fn new() -> (t: Table<V>)
        ensures
            t.wf(),
            t@ == Map::<nat, V>::empty(),
    {
        let t = Table { keys: Vec::new(), values: Vec::new() };
        t
    }

    /// The slot that holds `key`, if any does.
    fn find(&self, key: &U256) -> (r: Option<usize>)
        requires
            self.wf(),
        ensures
            match r {
                Some(i) => self.holds(i as int, key@),
                None => forall|i: int| !self.holds(i, key@),
            },
    {
        let mut i: usize = 0;
        while i < self.keys.len()
            invariant
                i <= self.keys.len(),
                forall|j: int| 0 <= j < i ==> self.keys[j]@ != key@,
            decreases self.keys.len() - i,
        {
            if self.keys[i].same(key) {
                return Some(i);
            }
            i += 1;
        }
        None
    }

    /// The record stored under `key`, if there is one.
    pub fn get(&self, key: &U256) -> (r: Option<V>)
        requires
            self.wf(),
        ensures
            r == if self@.contains_key(key@) {
                Some(self@[key@])
            } else {
                None
            },
    {
        match self.find(key) {
            Some(i) => Some(self.values[i]),
            None => None,
        }
    }

    /// Stores `value` under `key`, replacing the record that was there.
    pub fn insert(&mut self, key: U256, value: V)
        requires
            old(self).wf(),
        ensures
            final(self).wf(),
            final(self)@ == old(self)@.insert(key@, value),
    {
        match self.find(&key) {
            Some(i) => {
                self.values[i] = value;
                proof {
                    assert forall|k: nat| #[trigger] self@.contains_key(k) implies old(
                        self,
                    )@.insert(key@, value).contains_key(k) by {
                        let j = choose|j: int| self.holds(j, k);
                        assert(old(self).holds(j, k));
                    }
                    assert forall|k: nat| #[trigger]
                        old(self)@.insert(key@, value).contains_key(k) implies self@.contains_key(
                        k,
                    ) by {
                        if k == key@ {
                            assert(self.holds(i as int, k));
                        } else {
                            let j = choose|j: int| old(self).holds(j, k);
                            assert(self.holds(j, k));
                        }
                    }
                    assert(self@ =~= old(self)@.insert(key@, value));
                }
            },
            None => {
                self.keys.push(key);
                self.values.push(value);
                proof {
                    let n = old(self).keys.len() as int;
                    assert(self.holds(n, key@));
                    assert forall|i: int| 0 <= i < n implies old(self).keys[i]@ != key@ by {
                        assert(!old(self).holds(i, key@));
                    }
                    assert forall|k: nat| #[trigger] self@.contains_key(k) implies old(
                        self,
                    )@.insert(key@, value).contains_key(k) by {
                        let j = choose|j: int| self.holds(j, k);
                        if j < n {
                            assert(old(self).holds(j, k));
                        }
                    }
                    assert forall|k: nat| #[trigger]
                        old(self)@.insert(key@, value).contains_key(k) implies self@.contains_key(
                        k,
                    ) by {
                        if k != key@ {
                            let j = choose|j: int| old(self).holds(j, k);
                            assert(self.holds(j, k));
                        }
                    }
                    assert(self@ =~= old(self)@.insert(key@, value));
                }
            },
        }
    }
}

} // verus!

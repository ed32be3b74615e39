//! A keyed table of the host store.
//!
//! Every table of the store is keyed by two strings and a number (a port and
//! a channel, and a sequence where the entry is per packet). Entries that are
//! deleted keep their slot, empty, so that a key never moves.
use vstd::prelude::*;

verus! {

/// The mathematical form of a key: two strings and a number.
pub type KeyView = (Seq<char>, Seq<char>, u64);

/// The empty string, for the unused parts of a key.
pub fn no_name() -> (r: &'static str)
    ensures
        r@ == Seq::<char>::empty(),
{
    proof {
        reveal_strlit("");
    }
    assert(""@ =~= Seq::<char>::empty());
    ""
}

/// A key of a table.
#[derive(Debug)]
pub struct StoreKey {
    pub first: String,
    pub second: String,
    pub index: u64,
}

impl StoreKey {
    pub open spec fn view(&self) -> KeyView {
        (self.first@, self.second@, self.index)
    }

    pub fn new(first: &str, second: &str, index: u64) -> (r: Self)
        ensures
            r@ == (first@, second@, index),
    {
        StoreKey { first: String::from_str(first), second: String::from_str(second), index }
    }

    pub fn same(&self, o: &Self) -> (r: bool)
        ensures
            r == (self@ == o@),
    {
        self.index == o.index && self.first == o.first && self.second == o.second
    }
}

/// A finite map from keys to values of type `V`.
pub struct Table<V> {
    keys: Vec<StoreKey>,
    vals: Vec<Option<V>>,
}

impl<V> Table<V> {
    /// Whether slot `i` holds key `k` with a value.
    pub closed spec fn holds(&self, i: int, k: KeyView) -> bool {
        0 <= i < self.keys.len() && self.keys[i]@ == k && self.vals[i] is Some
    }

    /// The keys are pairwise distinct and each key has one value slot.
    pub closed spec fn wf(&self) -> bool {
        &&& self.keys.len() == self.vals.len()
        &&& forall|i: int, j: int|
            0 <= i < self.keys.len() && 0 <= j < self.keys.len() && i != j
                ==> self.keys[i]@ != self.keys[j]@
    }

    pub closed spec fn view(&self) -> Map<KeyView, V> {
        Map::new(
            |k: KeyView| exists|i: int| self.holds(i, k),
            |k: KeyView| self.vals[choose|i: int| self.holds(i, k)]->0,
        )
    }

    proof fn lemma_slot(&self, i: int)
        requires
            self.wf(),
            0 <= i < self.keys.len(),
        ensures
            self.vals[i] is Some ==> self@.contains_key(self.keys[i]@) && self@[self.keys[i]@]
                == self.vals[i]->0,
            self.vals[i] is None ==> !self@.contains_key(self.keys[i]@),
    {
        let k = self.keys[i]@;
        if self.vals[i] is Some {
            assert(self.holds(i, k));
            let j = choose|j: int| self.holds(j, k);
            assert(j == i);
        } else {
            assert forall|j: int| !self.holds(j, k) by {
                if 0 <= j < self.keys.len() && j != i {
                }
            }
        }
    }

    pub fn new() -> (r: Self)
        ensures
            r.wf(),
            r@ == Map::<KeyView, V>::empty(),
    {
        let r = Table { keys: Vec::new(), vals: Vec::new() };
        assert(r@ =~= Map::<KeyView, V>::empty());
        r
    }

    /// The slot that holds key `k`, if any.
    fn find(&self, k: &StoreKey) -> (r: Option<usize>)
        requires
            self.wf(),
        ensures
            match r {
                Some(i) => i < self.keys.len() && self.keys[i as int]@ == k@,
                None => forall|i: int| 0 <= i < self.keys.len() ==> self.keys[i]@ != k@,
            },
    {
        let mut i: usize = 0;
        while i < self.keys.len()
            invariant
                i <= self.keys.len(),
                forall|j: int| 0 <= j < i ==> self.keys[j]@ != k@,
            decreases self.keys.len() - i,
        {
            if self.keys[i].same(k) {
                return Some(i);
            }
            i = i + 1;
        }
        None
    }

    pub fn get(&self, k: &StoreKey) -> (r: Option<&V>)
        requires
            self.wf(),
        ensures
            match r {
                Some(v) => self@.contains_key(k@) && self@[k@] == *v,
                None => !self@.contains_key(k@),
            },
    {
        match self.find(k) {
            Some(i) => {
                proof {
                    self.lemma_slot(i as int);
                }
                match &self.vals[i] {
                    Some(v) => Some(v),
                    None => None,
                }
            },
            None => {
                assert forall|j: int| !self.holds(j, k@) by {}
                None
            },
        }
    }

    pub fn contains(&self, k: &StoreKey) -> (r: bool)
        requires
            self.wf(),
        ensures
            r == self@.contains_key(k@),
    {
        match self.get(k) {
            Some(_) => true,
            None => false,
        }
    }

    pub fn insert(&mut self, k: StoreKey, v: V)
        requires
            old(self).wf(),
        ensures
            final(self).wf(),
            final(self)@ == old(self)@.insert(k@, v),
    {
        let ghost kv = k@;
        match self.find(&k) {
            Some(i) => {
                self.vals.set(i, Some(v));
                proof {
                    self.lemma_slot(i as int);
                }
                assert forall|key: KeyView| key != kv implies (#[trigger] self@.contains_key(key))
                    == old(self)@.contains_key(key) && (self@.contains_key(key) ==> self@[key]
                    == old(self)@[key]) by {
                    if old(self)@.contains_key(key) {
                        let j = choose|j: int| old(self).holds(j, key);
                        assert(self.holds(j, key));
                        old(self).lemma_slot(j);
                        self.lemma_slot(j);
                    }
                    if self@.contains_key(key) {
                        let j = choose|j: int| self.holds(j, key);
                        assert(old(self).holds(j, key));
                    }
                }
                assert(self@ =~= old(self)@.insert(kv, v));
            },
            None => {
                self.keys.push(k);
                self.vals.push(Some(v));
                let n = self.keys.len() - 1;
                proof {
                    self.lemma_slot(n as int);
                }
                assert forall|key: KeyView| key != kv implies (#[trigger] self@.contains_key(key))
                    == old(self)@.contains_key(key) && (self@.contains_key(key) ==> self@[key]
                    == old(self)@[key]) by {
                    if old(self)@.contains_key(key) {
                        let j = choose|j: int| old(self).holds(j, key);
                        assert(self.holds(j, key));
                        old(self).lemma_slot(j);
                        self.lemma_slot(j);
                    }
                    if self@.contains_key(key) {
                        let j = choose|j: int| self.holds(j, key);
                        assert(old(self).holds(j, key));
                    }
                }
                assert(self@ =~= old(self)@.insert(kv, v));
            },
        }
    }

    pub fn remove(&mut self, k: &StoreKey)
        requires
            old(self).wf(),
        ensures
            final(self).wf(),
            final(self)@ == old(self)@.remove(k@),
    {
        match self.find(k) {
            Some(i) => {
                self.vals.set(i, None);
                proof {
                    self.lemma_slot(i as int);
                }
                assert forall|key: KeyView| key != k@ implies (#[trigger] self@.contains_key(key))
                    == old(self)@.contains_key(key) && (self@.contains_key(key) ==> self@[key]
                    == old(self)@[key]) by {
                    if old(self)@.contains_key(key) {
                        let j = choose|j: int| old(self).holds(j, key);
                        assert(self.holds(j, key));
                        old(self).lemma_slot(j);
                        self.lemma_slot(j);
                    }
                    if self@.contains_key(key) {
                        let j = choose|j: int| self.holds(j, key);
                        assert(old(self).holds(j, key));
                    }
                }
                assert(self@ =~= old(self)@.remove(k@));
            },
            None => {
                assert forall|j: int| !self.holds(j, k@) by {}
                assert(self@ =~= old(self)@.remove(k@));
            },
        }
    }
}

} // verus!

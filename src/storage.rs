//! A map stored as a list of entries with distinct keys.
use vstd::prelude::*;
use crate::support::StorageKey;

verus! {

/// A finite map, kept as a list of `(key, value)` entries whose keys have
/// pairwise distinct views; it is keyed by those views.
pub struct StorageMap<K: StorageKey, V> {
    entries: Vec<(K, V)>,
    contents: Ghost<Map<K::V, V>>,
}

impl<K: StorageKey, V> View for StorageMap<K, V> {
    type V = Map<K::V, V>;

    closed spec fn view(&self) -> Map<K::V, V> {
        self.contents@
    }
}

impl<K: StorageKey, V> StorageMap<K, V> {
    /// The entries have distinct keys and are exactly the pairs of the map.
    pub closed spec fn wf(&self) -> bool {
        &&& forall|i: int, j: int|
            0 <= i < j < self.entries@.len() ==> #[trigger] self.entries@[i].0@
                != #[trigger] self.entries@[j].0@
        &&& forall|i: int|
            0 <= i < self.entries@.len() ==> {
                &&& self.contents@.contains_key(#[trigger] self.entries@[i].0@)
                &&& self.contents@[self.entries@[i].0@] == self.entries@[i].1
            }
        &&& forall|k: K::V| #[trigger]
            self.contents@.contains_key(k) ==> exists|i: int|
                0 <= i < self.entries@.len() && #[trigger] self.entries@[i].0@ == k
    }

    /// An empty map.
    pub fn new() -> (m: Self)
        ensures
            m.wf(),
            m@ == Map::<K::V, V>::empty(),
    {
        StorageMap { entries: Vec::new(), contents: Ghost(Map::empty()) }
    }

    /// The position of the entry with key `k`, if there is one.
    fn find(&self, k: &K) -> (r: Option<usize>)
        requires
            self.wf(),
        ensures
            match r {
                Some(i) => i < self.entries@.len() && self.entries@[i as int].0@ == k@,
                None => !self@.contains_key(k@),
            },
    {
        let mut i: usize = 0;
        while i < self.entries.len()
            invariant
                self.wf(),
                i <= self.entries@.len(),
                forall|j: int| 0 <= j < i ==> #[trigger] self.entries@[j].0@ != k@,
            decreases self.entries@.len() - i,
        {
            if self.entries[i].0.same_key(k) {
                return Some(i);
            }
            i = i + 1;
        }
        None
    }

    /// Whether `k` has an entry.
    pub fn contains_key(&self, k: &K) -> (r: bool)
        requires
            self.wf(),
        ensures
            r == self@.contains_key(k@),
    {
        match self.find(k) {
            Some(i) => {
                proof {
                    assert(self@.contains_key(self.entries@[i as int].0@));
                }
                true
            },
            None => false,
        }
    }

    /// The value of `k`, if it has an entry.
    pub fn get(&self, k: &K) -> (r: Option<&V>)
        requires
            self.wf(),
        ensures
            match r {
                Some(v) => self@.contains_key(k@) && *v == self@[k@],
                None => !self@.contains_key(k@),
            },
    {
        match self.find(k) {
            Some(i) => {
                proof {
                    assert(self@.contains_key(self.entries@[i as int].0@));
                }
                Some(&self.entries[i].1)
            },
            None => None,
        }
    }

    /// Sets the value of `k`, replacing any earlier one.
    pub fn insert(&mut self, k: K, v: V)
        requires
            old(self).wf(),
        ensures
            final(self).wf(),
            final(self)@ == old(self)@.insert(k@, v),
    {
        let ghost key = k@;
        let ghost new_contents = self.contents@.insert(key, v);
        match self.find(&k) {
            Some(i) => {
                let ghost old_entries = self.entries@;
                self.entries.set(i, (k, v));
                self.contents = Ghost(new_contents);
                proof {
                    assert forall|k2: K::V| #[trigger]
                        self.contents@.contains_key(k2) implies exists|j: int|
                            0 <= j < self.entries@.len() && #[trigger] self.entries@[j].0@ == k2 by {
                        if k2 != key {
                            let j = choose|j: int|
                                0 <= j < old_entries.len() && #[trigger] old_entries[j].0@ == k2;
                            assert(self.entries@[j].0@ == k2);
                        } else {
                            assert(self.entries@[i as int].0@ == k2);
                        }
                    }
                }
            },
            None => {
                let ghost old_entries = self.entries@;
                self.entries.push((k, v));
                self.contents = Ghost(new_contents);
                proof {
                    let n = old_entries.len() as int;
                    assert(self.entries@[n].0@ == key);
                    assert forall|k2: K::V| #[trigger]
                        self.contents@.contains_key(k2) implies exists|j: int|
                            0 <= j < self.entries@.len() && #[trigger] self.entries@[j].0@ == k2 by {
                        if k2 != key {
                            let j = choose|j: int|
                                0 <= j < old_entries.len() && #[trigger] old_entries[j].0@ == k2;
                            assert(self.entries@[j].0@ == k2);
                        } else {
                            assert(self.entries@[n].0@ == k2);
                        }
                    }
                }
            },
        }
    }

    /// Removes the entry of `k`, if there is one.
    pub fn remove(&mut self, k: &K)
        requires
            old(self).wf(),
        ensures
            final(self).wf(),
            final(self)@ == old(self)@.remove(k@),
    {
        match self.find(k) {
            Some(i) => {
                let ghost old_entries = self.entries@;
                let ghost key = k@;
                let _ = self.entries.remove(i);
                self.contents = Ghost(self.contents@.remove(key));
                proof {
                    assert forall|k2: K::V| #[trigger]
                        self.contents@.contains_key(k2) implies exists|j: int|
                            0 <= j < self.entries@.len() && #[trigger] self.entries@[j].0@ == k2 by {
                        let j = choose|j: int|
                            0 <= j < old_entries.len() && #[trigger] old_entries[j].0@ == k2;
                        if j < i {
                            assert(self.entries@[j].0@ == k2);
                        } else {
                            assert(j != i);
                            assert(self.entries@[j - 1].0@ == k2);
                        }
                    }
                }
            },
            None => {
                proof {
                    assert(self.contents@.remove(k@) =~= self.contents@);
                }
            },
        }
    }
}

} // verus!

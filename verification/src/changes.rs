//! The change tracker: the keys that were touched since the last drain.

use std::collections::HashSet;
use vstd::prelude::*;

verus! {

broadcast use vstd::std_specs::hash::group_hash_axioms;

pub struct ChangeTracker {
    dirty: HashSet<u64>,
}

impl View for ChangeTracker {
    type V = Set<u64>;

    closed spec fn view(&self) -> Set<u64> {
        self.dirty@
    }
}

impl ChangeTracker {
    /// A tracker with no dirty key.
    pub fn new() -> (r: ChangeTracker)
        ensures
            r@ == Set::<u64>::empty(),
    {
        ChangeTracker { dirty: HashSet::new() }
    }

    /// Marks `key` as dirty. Marking a dirty key again changes nothing.
    pub fn mark(&mut self, key: u64)
        ensures
            final(self)@ == old(self)@.insert(key),
    {
        let _ = self.dirty.insert(key);
    }

    /// Whether `key` was marked since the last drain.
    pub fn is_dirty(&self, key: u64) -> (b: bool)
        ensures
            b == self@.contains(key),
    {
        self.dirty.contains(&key)
    }

    /// The number of dirty keys.
    pub fn len(&self) -> (n: usize)
        ensures
            n == self@.len(),
    {
        self.dirty.len()
    }

    /// Hands out the dirty keys and forgets them, in one step: the result
    /// holds exactly the keys marked since the last drain, and a key marked
    /// from now on belongs to the next drain.
    pub fn drain(&mut self) -> (keys: HashSet<u64>)
        ensures
            keys@ == old(self)@,
            final(self)@ == Set::<u64>::empty(),
    {
        let mut keys: HashSet<u64> = HashSet::new();
        std::mem::swap(&mut keys, &mut self.dirty);
        keys
    }

    /// Forgets the dirty keys.
    pub fn clear(&mut self)
        ensures
            final(self)@ == Set::<u64>::empty(),
    {
        self.dirty.clear();
    }
}

} // verus!

use std::collections::HashSet;
use vstd::prelude::*;

verus! {

broadcast use vstd::std_specs::hash::group_hash_axioms;

/// The filter predicate: an empty watch set lets every key through,
/// otherwise only the keys it holds.
pub open spec fn passes_filter(keys: Set<u32>, key: u32) -> bool {
    keys.is_empty() || keys.contains(key)
}

/// A key that was just registered passes the filter.
pub proof fn lemma_registered_key_passes(keys: Set<u32>, key: u32)
    ensures
        passes_filter(keys.insert(key), key),
{
}

/// A key that was just unregistered passes the filter only when the watch
/// set became empty by it (an empty set passes every key).
pub proof fn lemma_unregistered_key_filtered(keys: Set<u32>, key: u32)
    ensures
        passes_filter(keys.remove(key), key) <==> keys.remove(key).is_empty(),
{
}

/// The set of key codes that the hook reports.
pub struct WatchSet {
    keys: HashSet<u32>,
}

impl View for WatchSet {
    type V = Set<u32>;

    closed spec fn view(&self) -> Set<u32> {
        self.keys@
    }
}

impl WatchSet {
    /// An empty watch set, which passes every key.
    pub fn new() -> (r: Self)
        ensures
            r@ == Set::<u32>::empty(),
    {
        WatchSet { keys: HashSet::new() }
    }

    /// Starts watching `key`; adding a watched key changes nothing.
    pub fn add(&mut self, key: u32)
        ensures
            final(self)@ == old(self)@.insert(key),
    {
        self.keys.insert(key);
    }

    /// Stops watching `key`; removing an unwatched key changes nothing.
    pub fn remove(&mut self, key: u32)
        ensures
            final(self)@ == old(self)@.remove(key),
    {
        self.keys.remove(&key);
        proof {
            assert(final(self)@ =~= old(self)@.remove(key));
        }
    }

    /// Whether `key` is held.
    pub fn contains(&self, key: u32) -> (r: bool)
        ensures
            r == self@.contains(key),
    {
        self.keys.contains(&key)
    }

    /// Whether no key is held.
    pub fn is_empty(&self) -> (r: bool)
        ensures
            r == self@.is_empty(),
    {
        self.keys.is_empty()
    }

    /// The filter predicate: true when the set is empty or holds `key`.
    pub fn contains_or_empty(&self, key: u32) -> (r: bool)
        ensures
            r == passes_filter(self@, key),
    {
        self.keys.is_empty() || self.keys.contains(&key)
    }
}

} // verus!

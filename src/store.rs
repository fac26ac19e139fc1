//! The durable key-value store the registry writes through, and an in-memory
//! store that keeps its entries in a vector.

use vstd::prelude::*;
use crate::commitment::{CommitKey, RouteCommitment};
use crate::digest::{Digest, digests_equal};

verus! {

/// The entry stored under `key`, if there is one.
pub open spec fn entry_at(entries: Map<Digest, RouteCommitment>, key: Digest) -> Option<
    RouteCommitment,
> {
    if entries.contains_key(key) {
        Some(entries[key])
    } else {
        None
    }
}

/// A key-value store of commitments, keyed by route hash. The registry is
/// given one at construction and reaches storage only through it.
pub trait CommitStore {
    /// The commitments held, by route hash. A verified store defines it; the
    /// empty default serves stores written outside verified code, whose
    /// methods nothing checks against these contracts.
    open spec fn entries(&self) -> Map<Digest, RouteCommitment> {
        Map::empty()
    }

    /// Whether a commitment is stored under `key`.
    fn has(&self, key: &CommitKey) -> (r: bool)
        ensures
            r == self.entries().contains_key(key.route_hash),
    ;

    /// A copy of the commitment stored under `key`, if any.
    fn get(&self, key: &CommitKey) -> (r: Option<RouteCommitment>)
        ensures
            r == entry_at(self.entries(), key.route_hash),
    ;

    /// Stores `value` under `key`.
    fn set(&mut self, key: &CommitKey, value: RouteCommitment)
        ensures
            final(self).entries() == old(self).entries().insert(key.route_hash, value),
    ;
}

/// The map a sequence of writes leaves behind: a later write to a key
/// replaces an earlier one.
pub open spec fn entries_of(writes: Seq<(Digest, RouteCommitment)>) -> Map<Digest, RouteCommitment>
    decreases writes.len(),
{
    if writes.len() == 0 {
        Map::empty()
    } else {
        entries_of(writes.drop_last()).insert(writes.last().0, writes.last().1)
    }
}

/// A store held in memory, as a log of the writes made to it.
pub struct MemoryStore {
    writes: Vec<(Digest, RouteCommitment)>,
}

impl MemoryStore {
    /// An empty store.
    pub fn new() -> (r: Self)
        ensures
            r.entries() == Map::<Digest, RouteCommitment>::empty(),
    {
        MemoryStore { writes: Vec::new() }
    }

    /// The position of the latest write to `key`, whose value is the one
    /// stored, or `None` when the key was never written.
    fn latest_write(&self, key: &Digest) -> (r: Option<usize>)
        ensures
            match r {
                Some(i) => {
                    &&& i < self.writes@.len()
                    &&& self.writes@[i as int].0 == *key
                    &&& entry_at(self.entries(), *key) == Some(self.writes@[i as int].1)
                },
                None => !self.entries().contains_key(*key),
            },
    {
        let mut i: usize = self.writes.len();
        assert(self.writes@.take(i as int) =~= self.writes@);
        while i > 0
            invariant
                i <= self.writes@.len(),
                entry_at(entries_of(self.writes@.take(i as int)), *key) == entry_at(
                    entries_of(self.writes@),
                    *key,
                ),
            decreases i,
        {
            let j: usize = i - 1;
            assert(self.writes@.take(i as int).drop_last() =~= self.writes@.take(j as int));
            if digests_equal(&self.writes[j].0, key) {
                return Some(j);
            }
            i = j;
        }
        assert(self.writes@.take(0) =~= Seq::<(Digest, RouteCommitment)>::empty());
        None
    }
}

impl CommitStore for MemoryStore {
    closed spec fn entries(&self) -> Map<Digest, RouteCommitment> {
        entries_of(self.writes@)
    }

    fn has(&self, key: &CommitKey) -> (r: bool) {
        self.latest_write(&key.route_hash).is_some()
    }

    fn get(&self, key: &CommitKey) -> (r: Option<RouteCommitment>) {
        match self.latest_write(&key.route_hash) {
            Some(i) => Some(self.writes[i].1),
            None => None,
        }
    }

    fn set(&mut self, key: &CommitKey, value: RouteCommitment) {
        self.writes.push((key.route_hash, value));
        assert(self.writes@.drop_last() =~= old(self).writes@);
    }
}

} // verus!

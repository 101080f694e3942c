//! An abstract model of the two-partition store, and an in-memory store
//! that behaves exactly as the model says.
//!
//! Each partition holds a set of record indices twice: what a read sees now
//! (`live`) and what survives a crash (`durable`). A put changes only the live
//! set, a flush makes the live set durable, dropping and recreating a
//! partition empties its live set, and a crash brings every partition back to
//! its durable set.

use vstd::prelude::*;
use crate::partition::Partition;

verus! {

/// What one partition holds, as seen now and as it would survive a crash.
pub struct PartitionModel {
    pub live: Set<usize>,
    pub durable: Set<usize>,
}

/// What the whole store holds.
pub struct StoreModel {
    pub primary: PartitionModel,
    pub secondary: PartitionModel,
}

/// A state-changing operation on one partition of the store.
#[derive(Clone, Copy, Debug, PartialEq, Eq, Structural)]
pub enum StoreOp {
    /// Write the record with this index, without making it durable.
    Put(Partition, usize),
    /// Make every write to the partition so far durable.
    Flush(Partition),
    /// Drop the partition and create it again, empty.
    Recreate(Partition),
}

impl PartitionModel {
    pub open spec fn empty() -> PartitionModel {
        PartitionModel { live: Set::empty(), durable: Set::empty() }
    }
}

impl StoreModel {
    /// A store whose partitions hold nothing, live or durable.
    pub open spec fn empty() -> StoreModel {
        StoreModel { primary: PartitionModel::empty(), secondary: PartitionModel::empty() }
    }

    pub open spec fn part(self, p: Partition) -> PartitionModel {
        match p {
            Partition::Primary => self.primary,
            Partition::Secondary => self.secondary,
        }
    }

    pub open spec fn with_part(self, p: Partition, m: PartitionModel) -> StoreModel {
        match p {
            Partition::Primary => StoreModel { primary: m, ..self },
            Partition::Secondary => StoreModel { secondary: m, ..self },
        }
    }

    /// Whether a read of record `i` in partition `p` finds it.
    pub open spec fn has_record(self, p: Partition, i: usize) -> bool {
        self.part(p).live.contains(i)
    }

    /// The store after `op`.
    pub open spec fn apply(self, op: StoreOp) -> StoreModel {
        match op {
            StoreOp::Put(p, i) => self.with_part(
                p,
                PartitionModel { live: self.part(p).live.insert(i), durable: self.part(p).durable },
            ),
            StoreOp::Flush(p) => self.with_part(
                p,
                PartitionModel { live: self.part(p).live, durable: self.part(p).live },
            ),
            StoreOp::Recreate(p) => self.with_part(
                p,
                PartitionModel { live: Set::empty(), durable: self.part(p).durable },
            ),
        }
    }

    /// The store as a restarted process finds it after an abrupt crash:
    /// whatever was not durable is gone.
    pub open spec fn crash(self) -> StoreModel {
        StoreModel {
            primary: PartitionModel { live: self.primary.durable, durable: self.primary.durable },
            secondary: PartitionModel {
                live: self.secondary.durable,
                durable: self.secondary.durable,
            },
        }
    }

    /// The durability invariant: every durable secondary record has its
    /// primary record durable too.
    pub open spec fn durably_ordered(self) -> bool {
        self.secondary.durable.subset_of(self.primary.durable)
    }
}

/// An in-memory store that follows `StoreModel` exactly.
pub struct MemStore {
    primary_live: Vec<usize>,
    primary_durable: Vec<usize>,
    secondary_live: Vec<usize>,
    secondary_durable: Vec<usize>,
}

fn copy_indices(v: &Vec<usize>) -> (r: Vec<usize>)
    ensures
        r@ == v@,
{
    let mut r: Vec<usize> = Vec::new();
    let mut k: usize = 0;
    while k < v.len()
        invariant
            k <= v@.len(),
            r@ == v@.subrange(0, k as int),
        decreases v@.len() - k,
    {
        r.push(v[k]);
        k = k + 1;
        assert(r@ =~= v@.subrange(0, k as int));
    }
    assert(v@.subrange(0, v@.len() as int) =~= v@);
    r
}

fn holds_index(v: &Vec<usize>, i: usize) -> (r: bool)
    ensures
        r == v@.contains(i),
{
    let mut k: usize = 0;
    while k < v.len()
        invariant
            k <= v@.len(),
            forall|j: int| 0 <= j < k ==> v@[j] != i,
        decreases v@.len() - k,
    {
        if v[k] == i {
            return true;
        }
        k = k + 1;
    }
    false
}

impl View for MemStore {
    type V = StoreModel;

    closed spec fn view(&self) -> StoreModel {
        StoreModel {
            primary: PartitionModel {
                live: self.primary_live@.to_set(),
                durable: self.primary_durable@.to_set(),
            },
            secondary: PartitionModel {
                live: self.secondary_live@.to_set(),
                durable: self.secondary_durable@.to_set(),
            },
        }
    }
}

impl MemStore {
    /// A store with both partitions empty.
    pub fn new() -> (r: MemStore)
        ensures
            r@ == StoreModel::empty(),
    {
        let r = MemStore {
            primary_live: Vec::new(),
            primary_durable: Vec::new(),
            secondary_live: Vec::new(),
            secondary_durable: Vec::new(),
        };
        assert(r@.primary.live =~= Set::empty());
        assert(r@.primary.durable =~= Set::empty());
        assert(r@.secondary.live =~= Set::empty());
        assert(r@.secondary.durable =~= Set::empty());
        r
    }

    /// Whether a read of record `i` in partition `p` finds it.
    pub fn has_record(&self, p: Partition, i: usize) -> (r: bool)
        ensures
            r == self@.has_record(p, i),
    {
        match p {
            Partition::Primary => holds_index(&self.primary_live, i),
            Partition::Secondary => holds_index(&self.secondary_live, i),
        }
    }

    /// Writes record `i` to partition `p`, without making it durable.
    pub fn put(&mut self, p: Partition, i: usize)
        ensures
            final(self)@ == old(self)@.apply(StoreOp::Put(p, i)),
    {
        proof {
            old(self).primary_live@.lemma_push_to_set_commute(i);
            old(self).secondary_live@.lemma_push_to_set_commute(i);
        }
        match p {
            Partition::Primary => self.primary_live.push(i),
            Partition::Secondary => self.secondary_live.push(i),
        }
    }

    /// Makes every write to partition `p` so far durable.
    pub fn flush(&mut self, p: Partition)
        ensures
            final(self)@ == old(self)@.apply(StoreOp::Flush(p)),
    {
        match p {
            Partition::Primary => self.primary_durable = copy_indices(&self.primary_live),
            Partition::Secondary => self.secondary_durable = copy_indices(&self.secondary_live),
        }
    }

    /// Drops partition `p` and creates it again, empty.
    pub fn recreate(&mut self, p: Partition)
        ensures
            final(self)@ == old(self)@.apply(StoreOp::Recreate(p)),
    {
        match p {
            Partition::Primary => self.primary_live = Vec::new(),
            Partition::Secondary => self.secondary_live = Vec::new(),
        }
        assert(self@.part(p).live =~= Set::empty());
    }

    /// Performs `op`.
    pub fn apply(&mut self, op: StoreOp)
        ensures
            final(self)@ == old(self)@.apply(op),
    {
        match op {
            StoreOp::Put(p, i) => self.put(p, i),
            StoreOp::Flush(p) => self.flush(p),
            StoreOp::Recreate(p) => self.recreate(p),
        }
    }

    /// Loses everything that was not durable, as an abrupt crash followed by
    /// a restart does.
    pub fn crash(&mut self)
        ensures
            final(self)@ == old(self)@.crash(),
    {
        self.primary_live = copy_indices(&self.primary_durable);
        self.secondary_live = copy_indices(&self.secondary_durable);
    }
}

} // verus!

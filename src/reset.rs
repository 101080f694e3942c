//! The reset manager: empties both partitions durably after verification.

use vstd::prelude::*;
use crate::partition::Partition;
use crate::store::{MemStore, StoreModel, StoreOp, PartitionModel};

verus! {

/// The store after the operations `ops`, in order.
pub open spec fn apply_all(s: StoreModel, ops: Seq<StoreOp>) -> StoreModel
    decreases ops.len(),
{
    if ops.len() == 0 {
        s
    } else {
        apply_all(s.apply(ops[0]), ops.drop_first())
    }
}

/// The reset: each partition is dropped, recreated and then flushed, so that
/// its emptiness is durable.
pub open spec fn reset_ops() -> Seq<StoreOp> {
    seq![
        StoreOp::Recreate(Partition::Secondary),
        StoreOp::Flush(Partition::Secondary),
        StoreOp::Recreate(Partition::Primary),
        StoreOp::Flush(Partition::Primary),
    ]
}

/// The operations of a reset, in the order in which they are to be performed.
pub fn reset_plan() -> (r: Vec<StoreOp>)
    ensures
        r@ == reset_ops(),
{
    let r = vec![
        StoreOp::Recreate(Partition::Secondary),
        StoreOp::Flush(Partition::Secondary),
        StoreOp::Recreate(Partition::Primary),
        StoreOp::Flush(Partition::Primary),
    ];
    assert(r@ =~= reset_ops());
    r
}

/// Performs the operations `ops` on `store`, in order.
pub fn apply_plan(store: &mut MemStore, ops: &Vec<StoreOp>)
    ensures
        final(store)@ == apply_all(old(store)@, ops@),
{
    let mut k: usize = 0;
    assert(ops@.subrange(0, ops@.len() as int) =~= ops@);
    while k < ops.len()
        invariant
            k <= ops@.len(),
            apply_all(store@, ops@.subrange(k as int, ops@.len() as int)) == apply_all(
                old(store)@,
                ops@,
            ),
        decreases ops@.len() - k,
    {
        store.apply(ops[k]);
        assert(ops@.subrange(k as int, ops@.len() as int).drop_first() =~= ops@.subrange(
            k + 1,
            ops@.len() as int,
        ));
        k = k + 1;
    }
    assert(ops@.subrange(k as int, ops@.len() as int) =~= Seq::<StoreOp>::empty());
}

/// Reset completeness: after a reset, whatever the store held before, both
/// partitions are empty, live and durable, and they stay empty when the
/// process is killed right after the reset and restarted.
pub proof fn reset_empties_durably(s: StoreModel)
    ensures
        apply_all(s, reset_ops()) == StoreModel::empty(),
        apply_all(s, reset_ops()).crash() == StoreModel::empty(),
{
    let ops = reset_ops();
    let s1 = s.apply(ops[0]);
    let s2 = s1.apply(ops[1]);
    let s3 = s2.apply(ops[2]);
    let s4 = s3.apply(ops[3]);
    assert(ops.drop_first().drop_first().drop_first().drop_first() =~= Seq::<StoreOp>::empty());
    assert(apply_all(s4, Seq::empty()) == s4);
    assert(apply_all(s3, ops.drop_first().drop_first().drop_first()) == s4);
    assert(apply_all(s2, ops.drop_first().drop_first()) == s4);
    assert(apply_all(s1, ops.drop_first()) == s4);
    assert(s4.primary =~= PartitionModel::empty());
    assert(s4.secondary =~= PartitionModel::empty());
}

} // verus!

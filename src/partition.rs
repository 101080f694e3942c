//! The two paired partitions of the store.

use vstd::prelude::*;

verus! {

/// One of the two named partitions that hold the paired records.
///
/// `Primary` holds the independently meaningful record; `Secondary` holds a
/// record that is only valid once its `Primary` counterpart is durable.
#[derive(Clone, Copy, Debug, PartialEq, Eq, Structural)]
pub enum Partition {
    Primary,
    Secondary,
}

/// The name under which a partition is kept in the store.
pub open spec fn partition_name(p: Partition) -> Seq<char> {
    match p {
        Partition::Primary => "vector"@,
        Partition::Secondary => "mapping"@,
    }
}

impl Partition {
    /// The name under which this partition is kept in the store.
    pub fn name(&self) -> (r: &'static str)
        ensures
            r@ == partition_name(*self),
    {
        match self {
            Partition::Primary => "vector",
            Partition::Secondary => "mapping",
        }
    }
}

} // verus!

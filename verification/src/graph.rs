//! The part of a graph that places its node id boundary.
use vstd::prelude::*;

verus! {

/// A graph, seen through its two node counters.
///
/// A graph keeps no set of live nodes. It counts them, and it counts the freed
/// ids that wait in its recycle bin. The two counters are independent of the
/// ids that were ingested.
#[derive(Debug, Clone, Copy)]
pub struct Graph {
    /// How many nodes are live.
    pub node_count: u64,
    /// How many freed ids wait to be handed out again.
    pub deleted_nodes_count: u64,
}

impl Graph {
    /// Where the graph's node ids end, if its id space is dense: every id below
    /// is live or in the recycle bin, and none at or above was handed out.
    pub open spec fn boundary(self) -> nat {
        self.node_count as nat + self.deleted_nodes_count as nat
    }

    /// How many nodes are live.
    #[must_use]
    pub fn node_count(&self) -> (n: u64)
        ensures
            n == self.node_count,
    {
        self.node_count
    }

    /// How many freed ids wait to be handed out again.
    #[must_use]
    pub fn deleted_nodes_count(&self) -> (n: u64)
        ensures
            n == self.deleted_nodes_count,
    {
        self.deleted_nodes_count
    }
}

} // verus!

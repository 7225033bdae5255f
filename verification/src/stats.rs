//! Counters: what a walk has seen, by kind of node and by kind of edge.

use vstd::prelude::*;
use crate::graph::{EdgeType, NodeType, EDGE_TYPE_COUNT, NODE_TYPE_COUNT};

verus! {

/// What was seen of one kind of node.
#[derive(Clone, Copy, Debug, PartialEq, Eq, Structural)]
pub struct NodeTally {
    /// Nodes of the kind that were discovered.
    pub count: u64,
    /// Payload bytes seen in the nodes of the kind that were sampled.
    pub bytes: u64,
    /// Nodes of the kind whose payload could not be loaded or expanded.
    pub errors: u64,
}

/// `n + by`, or the largest number if that does not fit.
pub open spec fn capped_add(n: u64, by: int) -> u64 {
    if n + by > u64::MAX {
        u64::MAX
    } else {
        (n + by) as u64
    }
}

/// The counters of a walk. A counter that is full stays full.
#[derive(Clone, Copy, Debug, PartialEq, Eq)]
pub struct WalkStats {
    nodes: [NodeTally; NODE_TYPE_COUNT],
    edges: [u64; EDGE_TYPE_COUNT],
}

impl WalkStats {
    /// What was seen of nodes of `kind`.
    pub closed spec fn node(self, kind: NodeType) -> NodeTally {
        self.nodes@[kind.index()]
    }

    /// How many edges of `kind` were followed, whether they led to a new
    /// node or to one already seen.
    pub closed spec fn edge(self, kind: EdgeType) -> u64 {
        self.edges@[kind.index()]
    }

    /// Whether nothing was counted yet.
    pub open spec fn is_zero(self) -> bool {
        &&& forall|kind: NodeType|
            #[trigger] self.node(kind) == (NodeTally { count: 0, bytes: 0, errors: 0 })
        &&& forall|kind: EdgeType| #[trigger] self.edge(kind) == 0
    }

    /// Whether `self` differs from `before` at most in what was seen of
    /// nodes of `kind`, which is now `tally`.
    pub open spec fn only_node_changed(
        self,
        before: WalkStats,
        kind: NodeType,
        tally: NodeTally,
    ) -> bool {
        &&& self.node(kind) == tally
        &&& forall|other: NodeType|
            other != kind ==> #[trigger] self.node(other) == before.node(other)
        &&& forall|e: EdgeType| #[trigger] self.edge(e) == before.edge(e)
    }

    /// Counters that have counted nothing.
    pub fn new() -> (stats: WalkStats)
        ensures
            stats.is_zero(),
    {
        WalkStats {
            nodes: [NodeTally { count: 0, bytes: 0, errors: 0 }; NODE_TYPE_COUNT],
            edges: [0u64; EDGE_TYPE_COUNT],
        }
    }

    /// What was seen of nodes of `kind`.
    pub fn node_stats(&self, kind: NodeType) -> (tally: NodeTally)
        ensures
            tally == self.node(kind),
    {
        self.nodes[kind.ordinal()]
    }

    /// How many edges of `kind` were followed.
    pub fn edge_count(&self, kind: EdgeType) -> (count: u64)
        ensures
            count == self.edge(kind),
    {
        self.edges[kind.ordinal()]
    }

    /// Counts one more discovered node of `kind`.
    pub fn count_node(&mut self, kind: NodeType)
        ensures
            final(self).only_node_changed(
                *old(self),
                kind,
                NodeTally { count: capped_add(old(self).node(kind).count, 1), ..old(self).node(kind) },
            ),
    {
        let i: usize = kind.ordinal();
        let tally = self.nodes[i];
        self.nodes[i] = NodeTally { count: tally.count.saturating_add(1), ..tally };
    }

    /// Counts one more node of `kind` that failed.
    pub fn count_error(&mut self, kind: NodeType)
        ensures
            final(self).only_node_changed(
                *old(self),
                kind,
                NodeTally {
                    errors: capped_add(old(self).node(kind).errors, 1),
                    ..old(self).node(kind)
                },
            ),
    {
        let i: usize = kind.ordinal();
        let tally = self.nodes[i];
        self.nodes[i] = NodeTally { errors: tally.errors.saturating_add(1), ..tally };
    }

    /// Counts `bytes` more payload bytes seen in nodes of `kind`.
    pub fn count_bytes(&mut self, kind: NodeType, bytes: u64)
        ensures
            final(self).only_node_changed(
                *old(self),
                kind,
                NodeTally {
                    bytes: capped_add(old(self).node(kind).bytes, bytes as int),
                    ..old(self).node(kind)
                },
            ),
    {
        let i: usize = kind.ordinal();
        let tally = self.nodes[i];
        self.nodes[i] = NodeTally { bytes: tally.bytes.saturating_add(bytes), ..tally };
    }

    /// Counts one more followed edge of `kind`.
    pub fn count_edge(&mut self, kind: EdgeType)
        ensures
            final(self).edge(kind) == capped_add(old(self).edge(kind), 1),
            forall|other: EdgeType|
                other != kind ==> #[trigger] final(self).edge(other) == old(self).edge(other),
            forall|k: NodeType| #[trigger] final(self).node(k) == old(self).node(k),
    {
        let i: usize = kind.ordinal();
        let count: u64 = self.edges[i];
        self.edges[i] = count.saturating_add(1);
    }
}

} // verus!

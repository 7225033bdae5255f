//! The walk as mathematics: what a walk has discovered and followed, the
//! invariant that every step keeps, and what follows from it.
//!
//! A walk is a list of discovered nodes in the order of their discovery, a
//! count of how many of them were handed out for loading, and for each node
//! that came back the edges that were followed from it. The storage that is
//! walked appears only as a function from a node to the edges followed from
//! it: whatever order the nodes are loaded in, and however many are in flight
//! at a time, a walk that has run dry has discovered exactly the nodes that
//! this function makes reachable from the roots.

use vstd::prelude::*;
use crate::expand::Hop;
use crate::graph::{EdgeType, NodeType};
use crate::node::NodeId;

verus! {

/// Where a walk stands.
#[derive(Clone, Copy, Debug, PartialEq, Eq, Structural)]
pub enum WalkState {
    /// Waiting for its roots.
    Seeding,
    /// Handing out nodes and taking in payloads.
    Running,
    /// Nothing left to hand out and nothing in flight, or called off.
    Draining,
    /// Ended, with nothing fatal.
    Done,
    /// Ended by a fatal error.
    Failed,
}

/// The edges of `hops` that a walk follows: those of an enabled kind that
/// end at a node of an enabled kind.
pub open spec fn allowed(
    node_types: Set<NodeType>,
    edge_types: Set<EdgeType>,
    hops: Seq<Hop>,
) -> Seq<Hop>
    decreases hops.len(),
{
    if hops.len() == 0 {
        Seq::empty()
    } else {
        let front = allowed(node_types, edge_types, hops.drop_last());
        if permitted(node_types, edge_types, hops.last()) {
            front.push(hops.last())
        } else {
            front
        }
    }
}

/// Whether a walk follows `hop`: its kind is enabled, and so is the kind of
/// the node it ends at.
pub open spec fn permitted(node_types: Set<NodeType>, edge_types: Set<EdgeType>, hop: Hop) -> bool {
    edge_types.contains(hop.label) && node_types.contains(hop.target.kind())
}

/// Whether an edge kind can be followed at all where only nodes of
/// `node_types` are visited: the kind it leaves, if it leaves one, and the
/// kind it reaches are both among them.
pub open spec fn is_live(node_types: Set<NodeType>, edge: EdgeType) -> bool {
    &&& node_types.contains(edge.target())
    &&& edge.source() matches Some(from) ==> node_types.contains(from)
}

/// The edge kinds of `edge_types` that can be followed where only nodes of
/// `node_types` are visited. The others may be named in configuration; they
/// are dead there, and no error.
pub open spec fn live_edges(node_types: Set<NodeType>, edge_types: Set<EdgeType>) -> Set<
    EdgeType,
> {
    Set::new(|edge: EdgeType| edge_types.contains(edge) && is_live(node_types, edge))
}

/// The nodes at the far ends of `hops`, in order.
pub open spec fn targets(hops: Seq<Hop>) -> Seq<NodeId> {
    Seq::new(hops.len(), |i: int| hops[i].target)
}

/// `seen`, followed by the nodes of `found` that were not seen before, each
/// once, in the order of their first appearance.
pub open spec fn absorb(seen: Seq<NodeId>, found: Seq<NodeId>) -> Seq<NodeId>
    decreases found.len(),
{
    if found.len() == 0 {
        seen
    } else {
        let so_far = absorb(seen, found.drop_last());
        if so_far.contains(found.last()) {
            so_far
        } else {
            so_far.push(found.last())
        }
    }
}

/// How many of `nodes` are of kind `kind`.
pub open spec fn count_of_kind(nodes: Seq<NodeId>, kind: NodeType) -> nat
    decreases nodes.len(),
{
    if nodes.len() == 0 {
        0
    } else if nodes.last().kind() == kind {
        count_of_kind(nodes.drop_last(), kind) + 1
    } else {
        count_of_kind(nodes.drop_last(), kind)
    }
}

/// Whether an edge of `graph` leads from `from` to `to`.
pub open spec fn leads(graph: spec_fn(NodeId) -> Seq<Hop>, from: NodeId, to: NodeId) -> bool {
    exists|k: int| 0 <= k < graph(from).len() && #[trigger] graph(from)[k].target == to
}

/// Whether `path` starts at a root and goes on along edges of `graph`.
pub open spec fn is_path(
    graph: spec_fn(NodeId) -> Seq<Hop>,
    roots: Set<NodeId>,
    path: Seq<NodeId>,
) -> bool {
    &&& path.len() > 0
    &&& roots.contains(path[0])
    &&& forall|i: int| 0 <= i < path.len() - 1 ==> leads(graph, #[trigger] path[i], path[i + 1])
}

/// Whether `node` can be reached from a root along edges of `graph`.
pub open spec fn reachable(
    graph: spec_fn(NodeId) -> Seq<Hop>,
    roots: Set<NodeId>,
    node: NodeId,
) -> bool {
    exists|path: Seq<NodeId>| #[trigger] is_path(graph, roots, path) && path.last() == node
}

/// A walk, as contracts see it.
pub struct WalkModel {
    /// The kinds of node that the walk visits.
    pub node_types: Set<NodeType>,
    /// The kinds of edge that the walk follows.
    pub edge_types: Set<EdgeType>,
    /// Where the walk stands.
    pub state: WalkState,
    /// The nodes that the walk was started from.
    pub roots: Set<NodeId>,
    /// The visited set, in the order of discovery.
    pub discovered: Seq<NodeId>,
    /// How many of the discovered nodes were handed out for loading: the
    /// first so many. The others are the frontier.
    pub dispatched: int,
    /// For each node that came back, by its place in `discovered`: the
    /// edges followed from it. A node that failed has none.
    pub followed: Map<int, Seq<Hop>>,
}

impl WalkModel {
    /// The frontier: discovered, not handed out yet. First in, first out.
    pub open spec fn frontier(self) -> Seq<NodeId> {
        self.discovered.skip(self.dispatched)
    }

    /// The visited set.
    pub open spec fn visited(self) -> Set<NodeId> {
        self.discovered.to_set()
    }

    /// Whether the node at `at` came back and its edge number `k` ends at
    /// the node at `j`, which was discovered later than the node at `at`.
    pub open spec fn hop_found(self, at: int, k: int, j: int) -> bool {
        &&& 0 <= at < j < self.discovered.len()
        &&& self.followed.dom().contains(at)
        &&& 0 <= k < self.followed[at].len()
        &&& self.followed[at][k].target == self.discovered[j]
    }

    /// Whether the node at `j` is a root or was found at the end of a
    /// followed edge.
    pub open spec fn has_origin(self, j: int) -> bool {
        self.roots.contains(self.discovered[j]) || exists|at: int, k: int|
            self.hop_found(at, k, j)
    }

    /// Whether edge number `k` of the node at `at` is as the schema and the
    /// configuration allow and ends at a discovered node.
    pub open spec fn hop_in_order(self, at: int, k: int) -> bool {
        let hop = self.followed[at][k];
        &&& hop.fits(self.discovered[at].kind())
        &&& self.edge_types.contains(hop.label)
        &&& self.node_types.contains(hop.target.kind())
        &&& self.discovered.contains(hop.target)
    }

    /// What holds of a walk at every moment.
    pub open spec fn inv(self) -> bool {
        &&& self.edge_types == live_edges(self.node_types, self.edge_types)
        &&& self.discovered.no_duplicates()
        &&& 0 <= self.dispatched <= self.discovered.len()
        &&& forall|at: int| self.followed.dom().contains(at) ==> 0 <= at < self.dispatched
        &&& forall|root: NodeId| self.roots.contains(root) ==> self.discovered.contains(root)
        &&& forall|at: int, k: int|
            self.followed.dom().contains(at) && 0 <= k < self.followed[at].len()
                ==> #[trigger] self.hop_in_order(at, k)
        &&& forall|j: int| 0 <= j < self.discovered.len() ==> #[trigger] self.has_origin(j)
    }

    /// Whether the walk has run dry: every discovered node was handed out
    /// and came back.
    pub open spec fn exhausted(self) -> bool {
        &&& self.dispatched == self.discovered.len()
        &&& forall|at: int| 0 <= at < self.discovered.len() ==> self.followed.dom().contains(at)
    }

    /// Whether what the walk followed from each node is what `graph` says
    /// leaves that node.
    pub open spec fn agrees_with(self, graph: spec_fn(NodeId) -> Seq<Hop>) -> bool {
        forall|at: int|
            self.followed.dom().contains(at) ==> #[trigger] self.followed[at] == graph(
                self.discovered[at],
            )
    }
}

/// The walk keeps to the schema and to its configuration: every edge that
/// was followed is of an enabled kind, leaves a node of the kind that the
/// schema declares as the edge's source, which is an enabled kind, and ends
/// at a discovered node of the kind that the schema declares as the edge's
/// destination, which is an enabled kind too.
pub proof fn lemma_followed_edges_fit(walk: WalkModel, at: int, k: int)
    requires
        walk.inv(),
        walk.followed.dom().contains(at),
        0 <= k < walk.followed[at].len(),
    ensures
        0 <= at < walk.dispatched,
        walk.edge_types.contains(walk.followed[at][k].label),
        walk.followed[at][k].label.source() == Some(walk.discovered[at].kind()),
        walk.followed[at][k].target.kind() == walk.followed[at][k].label.target(),
        walk.node_types.contains(walk.discovered[at].kind()),
        walk.node_types.contains(walk.followed[at][k].target.kind()),
        walk.discovered.contains(walk.followed[at][k].target),
{
    assert(walk.hop_in_order(at, k));
    assert(live_edges(walk.node_types, walk.edge_types).contains(walk.followed[at][k].label));
}

/// Every visited node is a root or was produced by an edge that was
/// followed from a node visited before it, and is then of the kind that the
/// schema declares as that edge's destination.
pub proof fn lemma_every_node_has_an_origin(walk: WalkModel, j: int)
    requires
        walk.inv(),
        0 <= j < walk.discovered.len(),
    ensures
        walk.roots.contains(walk.discovered[j]) || exists|at: int, k: int|
            {
                &&& #[trigger] walk.hop_found(at, k, j)
                &&& walk.discovered[j].kind() == walk.followed[at][k].label.target()
                &&& walk.followed[at][k].label.source() == Some(walk.discovered[at].kind())
            },
{
    assert(walk.has_origin(j));
    if !walk.roots.contains(walk.discovered[j]) {
        let (at, k) = choose|at: int, k: int| walk.hop_found(at, k, j);
        assert(walk.hop_in_order(at, k));
    }
}

/// A walk goes on agreeing with the storage when one more node comes back
/// and what is followed from it is what the storage says leaves it.
pub proof fn lemma_agreement_kept(
    before: WalkModel,
    after: WalkModel,
    graph: spec_fn(NodeId) -> Seq<Hop>,
    at: int,
)
    requires
        before.agrees_with(graph),
        0 <= at < before.discovered.len(),
        before.discovered.len() <= after.discovered.len(),
        after.discovered.take(before.discovered.len() as int) == before.discovered,
        forall|i: int| before.followed.dom().contains(i) ==> 0 <= i < before.discovered.len(),
        after.followed == before.followed.insert(at, graph(before.discovered[at])),
    ensures
        after.agrees_with(graph),
{
    assert forall|i: int| after.followed.dom().contains(i) implies #[trigger] after.followed[i]
        == graph(after.discovered[i]) by {
        assert(after.discovered.take(before.discovered.len() as int)[i] == after.discovered[i]);
    }
}

/// A node is in what `absorb` gives exactly if it was seen before or is
/// among the found; nothing is listed twice; and what was seen before stays
/// in front.
pub proof fn lemma_absorb(seen: Seq<NodeId>, found: Seq<NodeId>)
    requires
        seen.no_duplicates(),
    ensures
        absorb(seen, found).no_duplicates(),
        seen.len() <= absorb(seen, found).len() <= seen.len() + found.len(),
        absorb(seen, found).take(seen.len() as int) == seen,
        forall|node: NodeId|
            absorb(seen, found).contains(node) <==> seen.contains(node) || found.contains(node),
    decreases found.len(),
{
    let all = absorb(seen, found);
    if found.len() == 0 {
        assert(all.take(seen.len() as int) =~= seen);
    } else {
        let front = found.drop_last();
        let so_far = absorb(seen, front);
        lemma_absorb(seen, front);
        assert(all.take(seen.len() as int) =~= so_far.take(seen.len() as int));
        assert forall|node: NodeId| all.contains(node) <==> seen.contains(node) || found.contains(
            node,
        ) by {
            if found.contains(node) {
                let i = choose|i: int| 0 <= i < found.len() && found[i] == node;
                if i < front.len() {
                    assert(front[i] == node);
                }
            }
            if front.contains(node) {
                let i = choose|i: int| 0 <= i < front.len() && front[i] == node;
                assert(found[i] == node);
            }
            assert(found[found.len() - 1] == found.last());
            if !so_far.contains(found.last()) {
                assert(all[all.len() - 1] == found.last());
                if so_far.contains(node) {
                    let i = choose|i: int| 0 <= i < so_far.len() && so_far[i] == node;
                    assert(all[i] == node);
                }
                if all.contains(node) {
                    let i = choose|i: int| 0 <= i < all.len() && all[i] == node;
                    if i < so_far.len() {
                        assert(so_far[i] == node);
                    }
                }
            }
        }
    }
}

/// Every discovered node can be reached from a root along the edges that
/// the walk followed: nothing is visited that the roots do not lead to.
pub proof fn lemma_discovered_is_reachable(
    walk: WalkModel,
    graph: spec_fn(NodeId) -> Seq<Hop>,
    j: int,
)
    requires
        walk.inv(),
        walk.agrees_with(graph),
        0 <= j < walk.discovered.len(),
    ensures
        reachable(graph, walk.roots, walk.discovered[j]),
    decreases j,
{
    let node = walk.discovered[j];
    assert(walk.has_origin(j));
    if walk.roots.contains(node) {
        let path = seq![node];
        assert(is_path(graph, walk.roots, path));
        assert(path.last() == node);
    } else {
        let (at, k) = choose|at: int, k: int| walk.hop_found(at, k, j);
        lemma_discovered_is_reachable(walk, graph, at);
        let before = choose|path: Seq<NodeId>| #[trigger]
            is_path(graph, walk.roots, path) && path.last() == walk.discovered[at];
        let path = before.push(node);
        assert(graph(walk.discovered[at])[k].target == node);
        assert(leads(graph, walk.discovered[at], node));
        assert forall|i: int| 0 <= i < path.len() - 1 implies leads(
            graph,
            #[trigger] path[i],
            path[i + 1],
        ) by {
            if i < before.len() - 1 {
                assert(path[i] == before[i]);
                assert(path[i + 1] == before[i + 1]);
            } else {
                assert(path[i] == walk.discovered[at]);
                assert(path[i + 1] == node);
            }
        }
        assert(is_path(graph, walk.roots, path));
        assert(path.last() == node);
    }
}

/// In a walk that has run dry, every node at the end of a path from a root
/// is discovered.
proof fn lemma_path_is_discovered(
    walk: WalkModel,
    graph: spec_fn(NodeId) -> Seq<Hop>,
    path: Seq<NodeId>,
)
    requires
        walk.inv(),
        walk.exhausted(),
        walk.agrees_with(graph),
        is_path(graph, walk.roots, path),
    ensures
        walk.discovered.contains(path.last()),
    decreases path.len(),
{
    if path.len() > 1 {
        let before = path.drop_last();
        assert(is_path(graph, walk.roots, before)) by {
            assert forall|i: int| 0 <= i < before.len() - 1 implies leads(
                graph,
                #[trigger] before[i],
                before[i + 1],
            ) by {
                assert(before[i] == path[i]);
                assert(before[i + 1] == path[i + 1]);
            }
        }
        lemma_path_is_discovered(walk, graph, before);
        let from = before.last();
        let at = choose|at: int| 0 <= at < walk.discovered.len() && walk.discovered[at] == from;
        assert(path[path.len() - 2] == from);
        assert(leads(graph, path[path.len() - 2], path[path.len() - 2 + 1]));
        let k = choose|k: int|
            0 <= k < graph(from).len() && #[trigger] graph(from)[k].target == path.last();
        assert(walk.followed.dom().contains(at));
        assert(walk.followed[at] == graph(walk.discovered[at]));
        assert(walk.hop_in_order(at, k));
    }
}

/// A walk that has run dry has visited exactly the nodes that can be
/// reached from its roots: each of them, and no other.
pub proof fn lemma_dry_walk_visits_the_reachable(
    walk: WalkModel,
    graph: spec_fn(NodeId) -> Seq<Hop>,
)
    requires
        walk.inv(),
        walk.exhausted(),
        walk.agrees_with(graph),
    ensures
        forall|node: NodeId| walk.visited().contains(node) <==> reachable(graph, walk.roots, node),
        walk.discovered.no_duplicates(),
{
    assert forall|node: NodeId| walk.visited().contains(node) <==> reachable(
        graph,
        walk.roots,
        node,
    ) by {
        if walk.visited().contains(node) {
            let j = choose|j: int| 0 <= j < walk.discovered.len() && walk.discovered[j] == node;
            lemma_discovered_is_reachable(walk, graph, j);
        }
        if reachable(graph, walk.roots, node) {
            let path = choose|path: Seq<NodeId>| #[trigger]
                is_path(graph, walk.roots, path) && path.last() == node;
            lemma_path_is_discovered(walk, graph, path);
        }
    }
}

/// Two walks of the same storage from the same roots, both run dry, have
/// visited the same set of nodes and the same number of nodes of each kind:
/// the order in which nodes were loaded, and how many were in flight at a
/// time, leave no trace.
pub proof fn lemma_walks_agree(
    one: WalkModel,
    other: WalkModel,
    graph: spec_fn(NodeId) -> Seq<Hop>,
    kind: NodeType,
)
    requires
        one.inv(),
        other.inv(),
        one.exhausted(),
        other.exhausted(),
        one.agrees_with(graph),
        other.agrees_with(graph),
        one.roots == other.roots,
    ensures
        one.visited() == other.visited(),
        one.discovered.len() == other.discovered.len(),
        count_of_kind(one.discovered, kind) == count_of_kind(other.discovered, kind),
{
    lemma_dry_walk_visits_the_reachable(one, graph);
    lemma_dry_walk_visits_the_reachable(other, graph);
    assert(one.visited() =~= other.visited());
    one.discovered.unique_seq_to_set();
    other.discovered.unique_seq_to_set();
    assert(one.discovered.to_set() == other.discovered.to_set());
    lemma_count_by_set(one.discovered, kind);
    lemma_count_by_set(other.discovered, kind);
}

/// In a list without repeats, the number of nodes of a kind is the number
/// of members of that kind in the set of its nodes.
pub proof fn lemma_count_by_set(nodes: Seq<NodeId>, kind: NodeType)
    requires
        nodes.no_duplicates(),
    ensures
        count_of_kind(nodes, kind) == nodes.to_set().filter(
            |node: NodeId| node.kind() == kind,
        ).len(),
    decreases nodes.len(),
{
    let pred = |node: NodeId| node.kind() == kind;
    if nodes.len() == 0 {
        assert(nodes.to_set().filter(pred) =~= Set::<NodeId>::empty());
    } else {
        let front = nodes.drop_last();
        let last = nodes.last();
        lemma_count_by_set(front, kind);
        vstd::seq_lib::seq_to_set_is_finite(front);
        assert(!front.contains(last)) by {
            if front.contains(last) {
                let i = choose|i: int| 0 <= i < front.len() && front[i] == last;
                assert(nodes[i] == nodes[nodes.len() - 1]);
            }
        }
        assert forall|node: NodeId| nodes.contains(node) <==> front.contains(node) || node
            == last by {
            if nodes.contains(node) {
                let i = choose|i: int| 0 <= i < nodes.len() && nodes[i] == node;
                if i < front.len() {
                    assert(front[i] == node);
                }
            }
            if front.contains(node) {
                let i = choose|i: int| 0 <= i < front.len() && front[i] == node;
                assert(nodes[i] == node);
            }
            assert(nodes[nodes.len() - 1] == last);
        }
        if pred(last) {
            assert(nodes.to_set().filter(pred) =~= front.to_set().filter(pred).insert(last));
        } else {
            assert(nodes.to_set().filter(pred) =~= front.to_set().filter(pred));
        }
    }
}

/// The number of nodes handed out never exceeds the number of nodes that
/// can be reached: where that number is finite, the walk ends within so
/// many loads, however many paths lead to a node.
pub proof fn lemma_steps_bounded(
    walk: WalkModel,
    graph: spec_fn(NodeId) -> Seq<Hop>,
    within: Set<NodeId>,
)
    requires
        walk.inv(),
        walk.agrees_with(graph),
        within.finite(),
        forall|node: NodeId| reachable(graph, walk.roots, node) ==> within.contains(node),
    ensures
        walk.dispatched <= walk.discovered.len() <= within.len(),
{
    assert forall|node: NodeId| walk.visited().contains(node) implies within.contains(node) by {
        let j = choose|j: int| 0 <= j < walk.discovered.len() && walk.discovered[j] == node;
        lemma_discovered_is_reachable(walk, graph, j);
    }
    walk.discovered.unique_seq_to_set();
    vstd::set_lib::lemma_len_subset(walk.visited(), within);
    assert(walk.visited() == walk.discovered.to_set());
}

} // verus!

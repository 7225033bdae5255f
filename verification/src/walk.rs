//! The traversal driver.
//!
//! A walk owns the visited set, the frontier and the counters. It does no
//! loading itself. Whoever runs it asks for the next node, loads that node's
//! payload by whatever means, at whatever time, and hands the outcome back;
//! any number of nodes may be out for loading at once. What the walk does
//! with an outcome is decided here: which edges are followed, which nodes
//! are new, what is counted, and when the walk is over.

use vstd::prelude::*;
use crate::expand::{expand, hops_of, outgoing, Hop, OutgoingEdge};
use crate::graph::{EdgeType, NodeType};
use crate::args::{
    edge_kinds_named,
    kinds_named,
    live_edge_types,
    parse_edge_values,
    parse_node_values,
    texts,
};
use crate::error::{ConfigError, ConfigFault};
use crate::model::{
    absorb,
    allowed,
    count_of_kind,
    live_edges,
    permitted,
    targets,
    WalkModel,
    WalkState,
};
use crate::node::{Node, NodeId};
use crate::payload::NodeData;
use crate::sampling::{SamplingArgs, SamplingOptions, SamplingPlan};
use crate::stats::{capped_add, NodeTally, WalkStats};
use crate::typeset::{EdgeTypeSet, NodeTypeSet};
use crate::visited::VisitedSet;

verus! {

/// Why a node's payload could not be loaded.
#[derive(Clone, Copy, Debug, PartialEq, Eq, Structural)]
pub enum LoadError {
    /// Nothing is stored under the node's key.
    NotFound,
    /// What is stored under the node's key is damaged.
    Corrupt,
    /// The storage did not answer.
    StorageUnavailable,
}

/// Why a walk gave up. These are the only errors that end a walk; what goes
/// wrong with a single node is counted and the walk goes on.
#[derive(Clone, Copy, Debug, PartialEq, Eq, Structural)]
pub enum WalkFatalError {
    /// A node failed, and the walk was to end at the first failure.
    FailFast,
    /// More nodes failed than the walk bears.
    TooManyErrors,
    /// More nodes were discovered than the budget allows.
    NodeBudgetExceeded,
    /// More payload bytes were read than the budget allows.
    ByteBudgetExceeded,
}

/// When a walk gives up.
#[derive(Clone, Copy, Debug, PartialEq, Eq)]
pub struct WalkPolicy {
    /// Whether the first node that fails ends the walk.
    pub fail_fast: bool,
    /// The number of failed nodes that the walk bears; one more ends it.
    pub error_limit: Option<u64>,
    /// The number of nodes that the walk may discover; one more ends it.
    pub node_budget: Option<usize>,
    /// The number of payload bytes that the walk may read; one more ends it.
    pub byte_budget: Option<u64>,
    /// Whether a node that is missing or damaged makes the run a failure
    /// even though the walk goes on.
    pub strict: bool,
    /// The number of nodes that may be out for loading at once; at that
    /// number no more are handed out until one comes back.
    pub workers: Option<usize>,
}

/// What a walk is told before it starts.
#[derive(Debug)]
pub struct WalkConfig {
    /// The kinds of node to visit.
    pub node_types: NodeTypeSet,
    /// The kinds of edge to follow.
    pub edge_types: EdgeTypeSet,
    /// Which of the visited nodes to check in depth.
    pub sampling: SamplingOptions,
    /// When to give up.
    pub policy: WalkPolicy,
}

/// What the names and arguments of a configuration ask for, or the fault in
/// them: the node kinds are read first, then the edge kinds, then the
/// sampling arguments, and the first fault found is the one reported.
pub open spec fn config_plan(
    node_names: Seq<Seq<char>>,
    edge_names: Seq<Seq<char>>,
    sampling: SamplingArgs,
    default_sample_rate: u64,
) -> Result<(Set<NodeType>, Set<EdgeType>, SamplingPlan), ConfigFault> {
    match kinds_named(node_names) {
        Err(fault) => Err(fault),
        Ok(node_types) => match edge_kinds_named(edge_names) {
            Err(fault) => Err(fault),
            Ok(edge_types) => match sampling.plan(default_sample_rate) {
                Err(fault) => Err(fault),
                Ok(plan) => Ok((node_types, edge_types, plan)),
            },
        },
    }
}

impl WalkConfig {
    /// Reads a configuration from the names of the node kinds to visit and
    /// of the edge kinds to follow, and from the sampling arguments. A name
    /// that is no kind, a sample rate of zero and a pattern that is no
    /// regular expression are errors, found before anything is loaded.
    pub fn from_args(
        node_names: &Vec<String>,
        edge_names: &Vec<String>,
        sampling: &SamplingArgs,
        default_sample_rate: u64,
        policy: WalkPolicy,
    ) -> (parsed: Result<WalkConfig, ConfigError>)
        ensures
            match config_plan(texts(node_names@), texts(edge_names@), *sampling, default_sample_rate) {
                Ok((node_types, edge_types, plan)) => {
                    &&& parsed matches Ok(config)
                    &&& config.node_types@ == node_types
                    &&& config.edge_types@ == edge_types
                    &&& config.sampling@ == plan
                    &&& config.policy == policy
                },
                Err(fault) => parsed matches Err(e) && e@ == fault,
            },
    {
        let node_types = match parse_node_values(node_names) {
            Ok(set) => set,
            Err(e) => {
                return Err(e);
            },
        };
        let edge_types = match parse_edge_values(edge_names) {
            Ok(set) => set,
            Err(e) => {
                return Err(e);
            },
        };
        let sampling = match sampling.parse_args(default_sample_rate) {
            Ok(options) => options,
            Err(e) => {
                return Err(e);
            },
        };
        Ok(WalkConfig { node_types, edge_types, sampling, policy })
    }
}

/// What became of a discovered node.
#[derive(Clone, Copy, Debug, PartialEq, Eq, Structural)]
enum NodeStatus {
    /// On the frontier.
    Pending,
    /// Handed out for loading.
    InFlight,
    /// Came back.
    Finished,
}

/// How many entries of `status` are in flight.
spec fn count_in_flight(status: Seq<NodeStatus>) -> nat
    decreases status.len(),
{
    if status.len() == 0 {
        0
    } else if status.last() == NodeStatus::InFlight {
        count_in_flight(status.drop_last()) + 1
    } else {
        count_in_flight(status.drop_last())
    }
}

/// Changing one entry changes the count by that entry alone.
proof fn lemma_count_update(status: Seq<NodeStatus>, at: int, to: NodeStatus)
    requires
        0 <= at < status.len(),
    ensures
        count_in_flight(status.update(at, to)) + (if status[at] == NodeStatus::InFlight {
            1nat
        } else {
            0nat
        }) == count_in_flight(status) + (if to == NodeStatus::InFlight {
            1nat
        } else {
            0nat
        }),
    decreases status.len(),
{
    let changed = status.update(at, to);
    if at == status.len() - 1 {
        assert(changed.drop_last() =~= status.drop_last());
    } else {
        assert(changed.drop_last() =~= status.drop_last().update(at, to));
        lemma_count_update(status.drop_last(), at, to);
    }
}

/// Where nothing is in flight, no entry is in flight.
proof fn lemma_none_in_flight(status: Seq<NodeStatus>)
    requires
        count_in_flight(status) == 0,
    ensures
        forall|i: int| 0 <= i < status.len() ==> status[i] != NodeStatus::InFlight,
    decreases status.len(),
{
    if status.len() > 0 {
        lemma_none_in_flight(status.drop_last());
        assert forall|i: int| 0 <= i < status.len() implies status[i] != NodeStatus::InFlight by {
            if i < status.len() - 1 {
                assert(status.drop_last()[i] == status[i]);
            }
        }
    }
}

/// No more entries are in flight than there are entries.
proof fn lemma_count_bound(status: Seq<NodeStatus>)
    ensures
        count_in_flight(status) <= status.len(),
    decreases status.len(),
{
    if status.len() > 0 {
        lemma_count_bound(status.drop_last());
    }
}

/// The identities of a list of nodes.
pub open spec fn ids(nodes: Seq<Node>) -> Seq<NodeId> {
    Seq::new(nodes.len(), |i: int| nodes[i]@)
}

/// How many of `hops` are of kind `label`.
pub open spec fn count_label(hops: Seq<Hop>, label: EdgeType) -> nat
    decreases hops.len(),
{
    if hops.len() == 0 {
        0
    } else if hops.last().label == label {
        count_label(hops.drop_last(), label) + 1
    } else {
        count_label(hops.drop_last(), label)
    }
}

/// No more nodes are of a kind than there are nodes.
proof fn lemma_count_of_kind_bound(nodes: Seq<NodeId>, kind: NodeType)
    ensures
        count_of_kind(nodes, kind) <= nodes.len(),
    decreases nodes.len(),
{
    if nodes.len() > 0 {
        lemma_count_of_kind_bound(nodes.drop_last(), kind);
    }
}

/// One more node adds one to the count of its kind and nothing to the
/// others.
proof fn lemma_count_of_kind_push(nodes: Seq<NodeId>, node: NodeId, kind: NodeType)
    ensures
        count_of_kind(nodes.push(node), kind) == count_of_kind(nodes, kind) + (if node.kind()
            == kind {
            1nat
        } else {
            0nat
        }),
{
    assert(nodes.push(node).drop_last() =~= nodes);
}

/// The set of a list with one more member is the set of the list with one
/// more member.
proof fn lemma_to_set_push(nodes: Seq<NodeId>, node: NodeId)
    ensures
        nodes.push(node).to_set() == nodes.to_set().insert(node),
{
    let more = nodes.push(node);
    assert forall|n: NodeId| more.to_set().contains(n) <==> nodes.to_set().insert(node).contains(
        n,
    ) by {
        if more.contains(n) {
            let i = choose|i: int| 0 <= i < more.len() && more[i] == n;
            if i < nodes.len() {
                assert(nodes[i] == n);
            }
        }
        if nodes.contains(n) {
            let i = choose|i: int| 0 <= i < nodes.len() && nodes[i] == n;
            assert(more[i] == n);
        }
        assert(more[nodes.len() as int] == node);
    }
    assert(more.to_set() =~= nodes.to_set().insert(node));
}

/// Adding to a counter twice is adding the sum once.
proof fn lemma_capped_add_twice(n: u64, a: nat, b: nat)
    ensures
        capped_add(capped_add(n, a as int), b as int) == capped_add(n, (a + b) as int),
{
}

/// The edges that a walk follows from `node` once `outcome` has come back:
/// those that leave the node according to its payload and that the walk is
/// allowed to follow. A node that failed has none.
pub open spec fn followed_from(
    node_types: Set<NodeType>,
    edge_types: Set<EdgeType>,
    node: NodeId,
    outcome: Result<NodeData, LoadError>,
) -> Seq<Hop> {
    match outcome {
        Ok(data) => match outgoing(node, data) {
            Ok(hops) => allowed(node_types, edge_types, hops),
            Err(_) => Seq::empty(),
        },
        Err(_) => Seq::empty(),
    }
}

/// Whether `node` failed: its payload could not be loaded, or the edges
/// that leave it could not be worked out from the payload.
pub open spec fn node_failed(node: NodeId, outcome: Result<NodeData, LoadError>) -> bool {
    match outcome {
        Ok(data) => outgoing(node, data) is Err,
        Err(_) => true,
    }
}

/// Whether `outcome` reports a node as missing or damaged.
pub open spec fn damaged_by(outcome: Result<NodeData, LoadError>) -> bool {
    outcome matches Err(e) && (e == LoadError::NotFound || e == LoadError::Corrupt)
}

/// The number of bytes in a bulk payload; other payloads count for nothing.
pub open spec fn payload_bytes(data: NodeData) -> nat {
    match data {
        NodeData::FileContent(content) => content.size() as nat,
        _ => 0,
    }
}

/// The number of payload bytes that are read on account of `node`: those
/// of its payload if the node did not fail and is sampled, else none.
pub open spec fn sampled_bytes(
    plan: SamplingPlan,
    walk_kinds: Set<NodeType>,
    node: NodeId,
    outcome: Result<NodeData, LoadError>,
) -> nat {
    match outcome {
        Ok(data) => if outgoing(node, data) is Ok && plan.should_sample(node, walk_kinds) {
            payload_bytes(data)
        } else {
            0
        },
        Err(_) => 0,
    }
}

/// Why a walk gives up, if it does: a node failed and the walk is to fail
/// fast, or has now more failures than it bears; or more nodes were
/// discovered, or more bytes read, than the budget allows. Where several
/// hold, the first of these is the reason.
pub open spec fn gives_up(
    policy: WalkPolicy,
    failed: bool,
    errors: u64,
    visited: nat,
    bytes: u64,
) -> Option<WalkFatalError> {
    if failed && policy.fail_fast {
        Some(WalkFatalError::FailFast)
    } else if failed && (policy.error_limit matches Some(limit) && errors > limit) {
        Some(WalkFatalError::TooManyErrors)
    } else if policy.node_budget matches Some(budget) && visited > budget {
        Some(WalkFatalError::NodeBudgetExceeded)
    } else if policy.byte_budget matches Some(budget) && bytes > budget {
        Some(WalkFatalError::ByteBudgetExceeded)
    } else {
        None
    }
}

/// Reads a bulk payload to its end and returns its size.
fn measure(data: &mut NodeData) -> (bytes: u64)
    ensures
        bytes == payload_bytes(*old(data)),
{
    match data {
        NodeData::FileContent(content) => content.drain() as u64,
        _ => 0,
    }
}

/// The far ends of a list with one more edge.
proof fn lemma_targets_push(hops: Seq<Hop>, hop: Hop)
    ensures
        targets(hops.push(hop)) == targets(hops).push(hop.target),
{
    assert(targets(hops.push(hop)) =~= targets(hops).push(hop.target));
}

/// Where every entry is finished, nothing is in flight.
proof fn lemma_all_finished(status: Seq<NodeStatus>)
    requires
        forall|i: int| 0 <= i < status.len() ==> status[i] == NodeStatus::Finished,
    ensures
        count_in_flight(status) == 0,
    decreases status.len(),
{
    if status.len() > 0 {
        assert forall|i: int| 0 <= i < status.drop_last().len() implies status.drop_last()[i]
            == NodeStatus::Finished by {
            assert(status.drop_last()[i] == status[i]);
        }
        lemma_all_finished(status.drop_last());
    }
}

/// What holds of a walk goes on holding when only its state changes, or
/// more of its frontier is handed out.
proof fn lemma_inv_kept(before: WalkModel, after: WalkModel)
    requires
        before.inv(),
        after.node_types == before.node_types,
        after.edge_types == before.edge_types,
        after.roots == before.roots,
        after.discovered == before.discovered,
        after.followed == before.followed,
        before.dispatched <= after.dispatched <= after.discovered.len(),
    ensures
        after.inv(),
{
    assert forall|at: int, k: int|
        after.followed.dom().contains(at) && 0 <= k < after.followed[at].len()
            implies #[trigger] after.hop_in_order(at, k) by {
        assert(before.hop_in_order(at, k));
    }
    assert forall|j: int| 0 <= j < after.discovered.len()
        implies #[trigger] after.has_origin(j) by {
        assert(before.has_origin(j));
        if !before.roots.contains(before.discovered[j]) {
            let (a, k) = choose|a: int, k: int| before.hop_found(a, k, j);
            assert(after.hop_found(a, k, j));
        }
    }
}

/// What a walk follows from each node of a storage that answers a load of
/// `node` with `storage(node)`, whenever it is asked.
pub open spec fn storage_graph(
    node_types: Set<NodeType>,
    edge_types: Set<EdgeType>,
    storage: spec_fn(NodeId) -> Result<NodeData, LoadError>,
) -> spec_fn(NodeId) -> Seq<Hop> {
    |node: NodeId| followed_from(node_types, edge_types, node, storage(node))
}

/// A walk that has followed from each node what the storage holds goes on
/// doing so when [`Walk::complete`] takes in what the storage holds for one
/// more node.
pub proof fn lemma_outcome_keeps_agreement(
    before: WalkModel,
    after: WalkModel,
    storage: spec_fn(NodeId) -> Result<NodeData, LoadError>,
    index: int,
)
    requires
        before.inv(),
        before.agrees_with(storage_graph(before.node_types, before.edge_types, storage)),
        0 <= index < before.discovered.len(),
        after.node_types == before.node_types,
        after.edge_types == before.edge_types,
        after.discovered == absorb(
            before.discovered,
            targets(
                followed_from(
                    before.node_types,
                    before.edge_types,
                    before.discovered[index],
                    storage(before.discovered[index]),
                ),
            ),
        ),
        after.followed == before.followed.insert(
            index,
            followed_from(
                before.node_types,
                before.edge_types,
                before.discovered[index],
                storage(before.discovered[index]),
            ),
        ),
    ensures
        after.agrees_with(storage_graph(after.node_types, after.edge_types, storage)),
{
    let graph = storage_graph(before.node_types, before.edge_types, storage);
    let hops = graph(before.discovered[index]);
    crate::model::lemma_absorb(before.discovered, targets(hops));
    crate::model::lemma_agreement_kept(before, after, graph, index);
}

/// What a walk has to show: the counters, and how far the walk got.
#[derive(Clone, Copy, Debug, PartialEq, Eq)]
pub struct WalkReport {
    /// The counters, by kind of node and by kind of edge.
    pub stats: WalkStats,
    /// Where the walk stood when the report was made.
    pub state: WalkState,
    /// How many nodes were visited.
    pub visited: usize,
    /// How many nodes failed.
    pub errors: u64,
    /// How many payload bytes were read in sampled nodes.
    pub bytes: u64,
    /// Whether the walk ran dry: if not, the counters are those of a part of
    /// the graph.
    pub complete: bool,
    /// Whether the run counts as a success.
    pub success: bool,
    /// Why the walk gave up, if it did.
    pub fatal: Option<WalkFatalError>,
}

impl WalkReport {
    /// The exit status that the run ends with: 0 for a success, 1 otherwise.
    pub fn exit_code(&self) -> (code: i32)
        ensures
            code == if self.success {
                0i32
            } else {
                1i32
            },
    {
        if self.success {
            0
        } else {
            1
        }
    }
}

/// A walk.
pub struct Walk {
    config: WalkConfig,
    state: WalkState,
    /// The visited set, in the order of discovery.
    discovered: VisitedSet,
    /// What became of each discovered node.
    status: Vec<NodeStatus>,
    /// How many nodes were handed out: the first so many of `discovered`.
    cursor: usize,
    /// How many nodes are out for loading.
    in_flight: usize,
    stats: WalkStats,
    /// How many nodes failed.
    errors: u64,
    /// How many payload bytes were read.
    bytes: u64,
    /// Whether a node was missing or damaged.
    damaged: bool,
    /// Whether the walk was called off.
    cut_short: bool,
    /// Why the walk gave up, if it did.
    fatal: Option<WalkFatalError>,
    roots: Ghost<Set<NodeId>>,
    followed: Ghost<Map<int, Seq<Hop>>>,
}

impl View for Walk {
    type V = WalkModel;

    closed spec fn view(&self) -> WalkModel {
        WalkModel {
            node_types: self.config.node_types@,
            edge_types: self.config.edge_types@,
            state: self.state,
            roots: self.roots@,
            discovered: self.discovered@,
            dispatched: self.cursor as int,
            followed: self.followed@,
        }
    }
}

impl Walk {
    /// What the representation keeps in step with the view.
    pub closed spec fn in_step(&self) -> bool {
        &&& self.discovered.wf()
        &&& self.status@.len() == self.discovered@.len()
        &&& forall|i: int|
            0 <= i < self.status@.len() ==> (i < self.cursor <==> self.status@[i]
                != NodeStatus::Pending)
        &&& forall|i: int|
            0 <= i < self.status@.len() ==> (self.followed@.dom().contains(i) <==> self.status@[i]
                == NodeStatus::Finished)
        &&& self.in_flight == count_in_flight(self.status@)
        &&& forall|kind: NodeType|
            (#[trigger] self.stats.node(kind)).count == count_of_kind(self.discovered@, kind)
        &&& self.state == WalkState::Seeding ==> self.discovered@.len() == 0
        &&& self.state == WalkState::Failed <==> self.fatal is Some
        &&& (self.state == WalkState::Draining || self.state == WalkState::Done) && !self.cut_short
            ==> self@.exhausted()
    }

    /// Whether the walk is in order. Every walk that this module hands out
    /// is, and stays so.
    pub open spec fn wf(&self) -> bool {
        self@.inv() && self.in_step()
    }

    /// The counters.
    pub closed spec fn tally(&self) -> WalkStats {
        self.stats
    }

    /// What the walk was told about giving up.
    pub closed spec fn policy(&self) -> WalkPolicy {
        self.config.policy
    }

    /// What the walk was told about sampling.
    pub closed spec fn sampling(&self) -> SamplingPlan {
        self.config.sampling@
    }

    /// How many nodes failed so far.
    pub closed spec fn errors(&self) -> u64 {
        self.errors
    }

    /// How many payload bytes were read so far in sampled nodes.
    pub closed spec fn bytes_read(&self) -> u64 {
        self.bytes
    }

    /// Whether a node was missing or damaged.
    pub closed spec fn damaged(&self) -> bool {
        self.damaged
    }

    /// Whether the walk was called off before it ran dry.
    pub closed spec fn cut_short(&self) -> bool {
        self.cut_short
    }

    /// Why the walk gave up, if it did.
    pub closed spec fn fatal(&self) -> Option<WalkFatalError> {
        self.fatal
    }

    /// A walk that waits for its roots. Of the edge kinds that `config`
    /// enables, the walk keeps those that can be followed at all: an edge
    /// kind that leaves or reaches a kind of node that is not visited is
    /// dead, and no error.
    pub fn new(config: WalkConfig) -> (walk: Walk)
        ensures
            walk.wf(),
            walk@ == (WalkModel {
                node_types: config.node_types@,
                edge_types: live_edges(config.node_types@, config.edge_types@),
                state: WalkState::Seeding,
                roots: Set::empty(),
                discovered: Seq::empty(),
                dispatched: 0,
                followed: Map::empty(),
            }),
            walk.tally().is_zero(),
            walk.policy() == config.policy,
            walk.sampling() == config.sampling@,
            walk.errors() == 0,
            walk.bytes_read() == 0,
            !walk.damaged(),
            !walk.cut_short(),
            walk.fatal() is None,
    {
        let live = live_edge_types(&config.node_types, &config.edge_types);
        proof {
            assert(live_edges(config.node_types@, live@) =~= live@);
        }
        let walk = Walk {
            config: WalkConfig { edge_types: live, ..config },
            state: WalkState::Seeding,
            discovered: VisitedSet::new(),
            status: Vec::new(),
            cursor: 0,
            in_flight: 0,
            stats: WalkStats::new(),
            errors: 0,
            bytes: 0,
            damaged: false,
            cut_short: false,
            fatal: None,
            roots: Ghost(Set::empty()),
            followed: Ghost(Map::empty()),
        };
        assert(walk.discovered@ =~= Seq::<NodeId>::empty());
        walk
    }

    /// Takes `node` into the visited set and onto the frontier unless it is
    /// there already, and records where it came from: it is a root, or the
    /// edge `label` led to it from the node at `origin`.
    fn discover(&mut self, node: Node, Ghost(origin): Ghost<Option<(int, EdgeType)>>) -> (fresh:
        bool)
        requires
            old(self).wf(),
            old(self).state == WalkState::Running,
            origin matches Some((at, label)) ==> {
                let hop = Hop { label, target: node@ };
                &&& old(self).followed@.dom().contains(at)
                &&& hop.fits(old(self)@.discovered[at].kind())
                &&& permitted(old(self)@.node_types, old(self)@.edge_types, hop)
            },
        ensures
            final(self).wf(),
            fresh == !old(self)@.discovered.contains(node@),
            final(self)@.discovered == if fresh {
                old(self)@.discovered.push(node@)
            } else {
                old(self)@.discovered
            },
            final(self)@.discovered == absorb(old(self)@.discovered, seq![node@]),
            final(self).roots@ == match origin {
                None => old(self).roots@.insert(node@),
                Some(_) => old(self).roots@,
            },
            final(self).followed@ == match origin {
                None => old(self).followed@,
                Some((at, label)) => old(self).followed@.insert(
                    at,
                    old(self).followed@[at].push(Hop { label, target: node@ }),
                ),
            },
            final(self).config == old(self).config,
            final(self).state == old(self).state,
            final(self).cursor == old(self).cursor,
            final(self).in_flight == old(self).in_flight,
            final(self).status@.take(old(self).status@.len() as int) == old(self).status@,
            final(self).errors == old(self).errors,
            final(self).bytes == old(self).bytes,
            final(self).damaged == old(self).damaged,
            final(self).cut_short == old(self).cut_short,
            final(self).fatal == old(self).fatal,
            forall|e: EdgeType| #[trigger] final(self).stats.edge(e) == old(self).stats.edge(e),
            forall|k: NodeType|
                (#[trigger] final(self).stats.node(k)).errors == old(self).stats.node(k).errors
                    && final(self).stats.node(k).bytes == old(self).stats.node(k).bytes,
    {
        let ghost before = self@;
        let ghost id = node@;
        proof {
            assert(seq![id].drop_last() =~= Seq::<NodeId>::empty());
            assert(seq![id].last() == id);
            assert(absorb(before.discovered, seq![id].drop_last()) == before.discovered);
        }
        let place = self.position(&node);
        let fresh = place.is_none();
        let ghost old_len = self.discovered@.len() as int;
        if fresh {
            let kind = node.get_type();
            proof {
                assert forall|k: NodeType|
                    count_of_kind(before.discovered.push(id), k) == count_of_kind(
                        before.discovered,
                        k,
                    ) + (if id.kind() == k {
                        1nat
                    } else {
                        0nat
                    }) by {
                    lemma_count_of_kind_push(before.discovered, id, k);
                }
                lemma_count_of_kind_bound(before.discovered.push(id), kind);
            }
            self.discovered.push_new(node);
            self.status.push(NodeStatus::Pending);
            let len: usize = self.discovered.len();
            self.stats.count_node(kind);
            proof {
                assert(self.status@.drop_last() =~= old(self).status@);
                assert(self.status@.take(old_len) =~= old(self).status@);
            }
        } else {
            proof {
                assert(self.status@.take(old_len) =~= old(self).status@);
            }
        }
        proof {
            match origin {
                None => {
                    self.roots@ = self.roots@.insert(id);
                },
                Some((at, label)) => {
                    self.followed@ = self.followed@.insert(
                        at,
                        self.followed@[at].push(Hop { label, target: id }),
                    );
                },
            }
            let after = self@;
            assert(after.discovered == if fresh {
                before.discovered.push(id)
            } else {
                before.discovered
            });
            assert(after.discovered.contains(id)) by {
                if fresh {
                    assert(after.discovered[old_len] == id);
                }
            }
            assert forall|n: NodeId| before.discovered.contains(n) implies after.discovered.contains(
                n,
            ) by {
                let i = choose|i: int| 0 <= i < before.discovered.len() && before.discovered[i] == n;
                assert(after.discovered[i] == n);
            }
            assert(after.discovered.no_duplicates());
            assert forall|at: int, k: int|
                after.followed.dom().contains(at) && 0 <= k < after.followed[at].len()
                    implies #[trigger] after.hop_in_order(at, k) by {
                assert(after.discovered[at] == before.discovered[at]);
                if k < before.followed[at].len() && before.followed.dom().contains(at) {
                    assert(before.hop_in_order(at, k));
                    assert(after.followed[at][k] == before.followed[at][k]);
                }
            }
            assert forall|j: int| 0 <= j < after.discovered.len()
                implies #[trigger] after.has_origin(j) by {
                if j < old_len {
                    assert(before.has_origin(j));
                    assert(after.discovered[j] == before.discovered[j]);
                    if !before.roots.contains(before.discovered[j]) {
                        let (a, k) = choose|a: int, k: int| before.hop_found(a, k, j);
                        assert(after.followed[a][k] == before.followed[a][k]);
                        assert(after.hop_found(a, k, j));
                    }
                } else {
                    match origin {
                        None => {},
                        Some((at, label)) => {
                            let k = before.followed[at].len() as int;
                            assert(after.followed[at][k].target == id);
                            assert(after.hop_found(at, k, j));
                        },
                    }
                }
            }
            assert(after.inv());
        }
        fresh
    }

    /// Starts the walk from `roots`. Each root enters the visited set and the
    /// frontier, once however often it is listed, and each bookmark among
    /// them counts as one step along the edge from outside the graph to a
    /// bookmark, where that kind of edge is enabled. A walk without roots
    /// has nothing to do and goes straight to draining. Only a walk that
    /// waits for its roots takes any: any other is left as it is.
    pub fn seed(&mut self, roots: &[Node]) -> (accepted: bool)
        requires
            old(self).wf(),
        ensures
            final(self).wf(),
            accepted == (old(self)@.state == WalkState::Seeding),
            !accepted ==> *final(self) == *old(self),
            accepted ==> final(self)@ == (WalkModel {
                state: if roots@.len() == 0 {
                    WalkState::Draining
                } else {
                    WalkState::Running
                },
                roots: old(self)@.roots.union(ids(roots@).to_set()),
                discovered: absorb(Seq::empty(), ids(roots@)),
                ..old(self)@
            }),
            accepted ==> forall|e: EdgeType| #[trigger]
                final(self).tally().edge(e) == if e == EdgeType::RootToBookmark && old(
                    self,
                )@.edge_types.contains(e) {
                    capped_add(
                        old(self).tally().edge(e),
                        count_of_kind(ids(roots@), NodeType::Bookmark) as int,
                    )
                } else {
                    old(self).tally().edge(e)
                },
            forall|k: NodeType|
                (#[trigger] final(self).tally().node(k)).errors == old(self).tally().node(k).errors
                    && final(self).tally().node(k).bytes == old(self).tally().node(k).bytes,
            forall|k: NodeType|
                (#[trigger] final(self).tally().node(k)).count == count_of_kind(
                    final(self)@.discovered,
                    k,
                ),
            final(self).policy() == old(self).policy(),
            final(self).sampling() == old(self).sampling(),
            final(self).errors() == old(self).errors(),
            final(self).bytes_read() == old(self).bytes_read(),
            final(self).damaged() == old(self).damaged(),
            final(self).cut_short() == old(self).cut_short(),
            final(self).fatal() == old(self).fatal(),
    {
        if self.state != WalkState::Seeding {
            return false;
        }
        self.state = WalkState::Running;
        let count_root_edge = self.config.edge_types.contains(EdgeType::RootToBookmark);
        let ghost given = ids(roots@);
        let mut i: usize = 0;
        proof {
            assert(self.discovered@ =~= Seq::<NodeId>::empty());
            assert(given.take(0).to_set() =~= Set::<NodeId>::empty());
            assert(self.roots@.union(Set::<NodeId>::empty()) =~= self.roots@);
        }
        while i < roots.len()
            invariant
                i <= roots@.len(),
                given == ids(roots@),
                self.wf(),
                self.state == WalkState::Running,
                count_root_edge == old(self)@.edge_types.contains(EdgeType::RootToBookmark),
                self@ == (WalkModel {
                    state: WalkState::Running,
                    roots: old(self)@.roots.union(given.take(i as int).to_set()),
                    discovered: absorb(Seq::empty(), given.take(i as int)),
                    ..old(self)@
                }),
                forall|e: EdgeType| #[trigger]
                    self.stats.edge(e) == if e == EdgeType::RootToBookmark && count_root_edge {
                        capped_add(
                            old(self).stats.edge(e),
                            count_of_kind(given.take(i as int), NodeType::Bookmark) as int,
                        )
                    } else {
                        old(self).stats.edge(e)
                    },
                forall|k: NodeType|
                    (#[trigger] self.stats.node(k)).errors == old(self).stats.node(k).errors
                        && self.stats.node(k).bytes == old(self).stats.node(k).bytes,
                self.config == old(self).config,
                self.errors == old(self).errors,
                self.bytes == old(self).bytes,
                self.damaged == old(self).damaged,
                self.cut_short == old(self).cut_short,
                self.fatal == old(self).fatal,
            decreases roots@.len() - i,
        {
            let root = roots[i].duplicate();
            let ghost id = root@;
            let ghost before = given.take(i as int);
            proof {
                assert(given.take(i + 1) =~= before.push(id));
                assert(given.take(i + 1).drop_last() =~= before);
                lemma_to_set_push(before, id);
                assert(old(self)@.roots.union(before.to_set()).insert(id) =~= old(
                    self,
                )@.roots.union(before.push(id).to_set()));
                lemma_capped_add_twice(
                    old(self).stats.edge(EdgeType::RootToBookmark),
                    count_of_kind(before, NodeType::Bookmark),
                    1,
                );
            }
            if count_root_edge && root.get_type() == NodeType::Bookmark {
                self.stats.count_edge(EdgeType::RootToBookmark);
            }
            self.discover(root, Ghost(None));
            i += 1;
        }
        proof {
            assert(given.take(i as int) =~= given);
        }
        if self.discovered.len() == 0 {
            proof {
                if roots@.len() > 0 {
                    crate::model::lemma_absorb(Seq::empty(), given);
                    assert(given.contains(given[0]));
                    assert(self@.discovered.contains(given[0]));
                }
            }
            self.state = WalkState::Draining;
        } else {
            proof {
                if roots@.len() == 0 {
                    assert(given =~= Seq::<NodeId>::empty());
                }
            }
        }
        true
    }

    /// Hands out the node that has waited longest on the frontier, by its
    /// place in the order of discovery. The node is then out for loading
    /// until its outcome is handed to [`Walk::complete`]. Nothing is handed
    /// out unless the walk is running, the frontier has a node, and fewer
    /// nodes are out for loading than the policy allows at once.
    pub fn next_node(&mut self) -> (next: Option<usize>)
        requires
            old(self).wf(),
        ensures
            final(self).wf(),
            match next {
                Some(index) => {
                    &&& old(self)@.state == WalkState::Running
                    &&& old(self).has_free_worker()
                    &&& index == old(self)@.dispatched
                    &&& index < old(self)@.discovered.len()
                    &&& final(self)@ == (WalkModel {
                        dispatched: old(self)@.dispatched + 1,
                        ..old(self)@
                    })
                    &&& final(self).awaits(index)
                    &&& final(self).in_flight_count() == old(self).in_flight_count() + 1
                },
                None => {
                    &&& old(self)@.state != WalkState::Running || old(self)@.frontier().len() == 0
                        || !old(self).has_free_worker()
                    &&& *final(self) == *old(self)
                },
            },
            forall|other: usize| old(self).awaits(other) ==> final(self).awaits(other),
            final(self).tally() == old(self).tally(),
            final(self).policy() == old(self).policy(),
            final(self).sampling() == old(self).sampling(),
            final(self).errors() == old(self).errors(),
            final(self).bytes_read() == old(self).bytes_read(),
            final(self).damaged() == old(self).damaged(),
            final(self).cut_short() == old(self).cut_short(),
            final(self).fatal() == old(self).fatal(),
    {
        if self.state != WalkState::Running || self.cursor >= self.discovered.len() {
            return None;
        }
        match self.config.policy.workers {
            Some(limit) => {
                if self.in_flight >= limit {
                    return None;
                }
            },
            None => {},
        }
        let index: usize = self.cursor;
        proof {
            lemma_count_update(self.status@, index as int, NodeStatus::InFlight);
            lemma_count_bound(self.status@.update(index as int, NodeStatus::InFlight));
        }
        self.status.set(index, NodeStatus::InFlight);
        self.in_flight = self.in_flight + 1;
        self.cursor = self.cursor + 1;
        proof {
            lemma_inv_kept(old(self)@, self@);
        }
        Some(index)
    }

    /// Whether the node at place `index` is sampled, so that its bulk
    /// payload will be read when it comes back. Whoever loads the node can
    /// spare itself the reading where it is not.
    pub fn is_sampled(&self, index: usize) -> (sampled: bool)
        requires
            self.wf(),
        ensures
            sampled == (index < self@.discovered.len() && self.sampling().should_sample(
                self@.discovered[index as int],
                self@.node_types,
            )),
    {
        index < self.discovered.len() && self.config.sampling.should_sample(
            self.discovered.get(index),
            &self.config.node_types,
        )
    }

    /// Whether one more node may be out for loading.
    pub open spec fn has_free_worker(&self) -> bool {
        self.policy().workers matches Some(limit) ==> self.in_flight_count() < limit
    }

    /// Whether the node at place `index` is out for loading, so that the
    /// walk waits for its outcome.
    pub closed spec fn awaits(&self, index: usize) -> bool {
        &&& self.state == WalkState::Running
        &&& index < self.cursor
        &&& index < self.status@.len()
        &&& self.status@[index as int] == NodeStatus::InFlight
    }

    /// Follows those of `edges` that the walk is allowed to follow, in
    /// order, from the node at place `index`: each is counted, and the node
    /// at its far end is discovered unless it was before.
    fn follow_all(&mut self, index: usize, edges: &Vec<OutgoingEdge>)
        requires
            old(self).wf(),
            old(self).state == WalkState::Running,
            old(self).followed@.dom().contains(index as int),
            index < old(self)@.discovered.len(),
            forall|i: int|
                0 <= i < edges.len() ==> (#[trigger] edges[i])@.fits(
                    old(self)@.discovered[index as int].kind(),
                ),
        ensures
            final(self).wf(),
            final(self)@.discovered == absorb(
                old(self)@.discovered,
                targets(allowed(old(self)@.node_types, old(self)@.edge_types, hops_of(edges@))),
            ),
            final(self).followed@ == old(self).followed@.insert(
                index as int,
                old(self).followed@[index as int] + allowed(
                    old(self)@.node_types,
                    old(self)@.edge_types,
                    hops_of(edges@),
                ),
            ),
            final(self).roots@ == old(self).roots@,
            final(self).config == old(self).config,
            final(self).state == old(self).state,
            final(self).cursor == old(self).cursor,
            final(self).in_flight == old(self).in_flight,
            final(self).status@.take(old(self).status@.len() as int) == old(self).status@,
            final(self).errors == old(self).errors,
            final(self).bytes == old(self).bytes,
            final(self).damaged == old(self).damaged,
            final(self).cut_short == old(self).cut_short,
            final(self).fatal == old(self).fatal,
            forall|e: EdgeType| #[trigger]
                final(self).stats.edge(e) == capped_add(
                    old(self).stats.edge(e),
                    count_label(
                        allowed(old(self)@.node_types, old(self)@.edge_types, hops_of(edges@)),
                        e,
                    ) as int,
                ),
            forall|k: NodeType|
                (#[trigger] final(self).stats.node(k)).errors == old(self).stats.node(k).errors
                    && final(self).stats.node(k).bytes == old(self).stats.node(k).bytes,
    {
        let ghost hops = hops_of(edges@);
        let ghost node_types = self@.node_types;
        let ghost edge_types = self@.edge_types;
        let ghost first = self.followed@[index as int];
        let mut i: usize = 0;
        proof {
            assert(hops.take(0) =~= Seq::<Hop>::empty());
            assert(targets(Seq::<Hop>::empty()) =~= Seq::<NodeId>::empty());
            assert(first + Seq::<Hop>::empty() =~= first);
            assert(self.followed@ =~= self.followed@.insert(index as int, first));
            assert(self.status@.take(self.status@.len() as int) =~= self.status@);
        }
        while i < edges.len()
            invariant
                i <= edges@.len(),
                hops == hops_of(edges@),
                node_types == old(self)@.node_types,
                edge_types == old(self)@.edge_types,
                first == old(self).followed@[index as int],
                index < old(self)@.discovered.len(),
                forall|i: int|
                    0 <= i < edges.len() ==> (#[trigger] edges[i])@.fits(
                        old(self)@.discovered[index as int].kind(),
                    ),
                self.wf(),
                index < self@.discovered.len(),
                self@.discovered[index as int] == old(self)@.discovered[index as int],
                self@.discovered == absorb(
                    old(self)@.discovered,
                    targets(allowed(node_types, edge_types, hops.take(i as int))),
                ),
                self.followed@ == old(self).followed@.insert(
                    index as int,
                    first + allowed(node_types, edge_types, hops.take(i as int)),
                ),
                self.roots@ == old(self).roots@,
                self.config == old(self).config,
                self.state == WalkState::Running,
                self.cursor == old(self).cursor,
                self.in_flight == old(self).in_flight,
                self.status@.len() >= old(self).status@.len(),
                self.status@.take(old(self).status@.len() as int) == old(self).status@,
                self.errors == old(self).errors,
                self.bytes == old(self).bytes,
                self.damaged == old(self).damaged,
                self.cut_short == old(self).cut_short,
                self.fatal == old(self).fatal,
                forall|e: EdgeType| #[trigger]
                    self.stats.edge(e) == capped_add(
                        old(self).stats.edge(e),
                        count_label(allowed(node_types, edge_types, hops.take(i as int)), e) as int,
                    ),
                forall|k: NodeType|
                    (#[trigger] self.stats.node(k)).errors == old(self).stats.node(k).errors
                        && self.stats.node(k).bytes == old(self).stats.node(k).bytes,
            decreases edges@.len() - i,
        {
            let edge = &edges[i];
            let ghost hop = edge@;
            let ghost done = allowed(node_types, edge_types, hops.take(i as int));
            let ghost mid = self.status@;
            proof {
                assert(hops.take(i + 1).drop_last() =~= hops.take(i as int));
                assert(hops.take(i + 1).last() == hop);
                assert(edges[i as int]@.fits(old(self)@.discovered[index as int].kind()));
            }
            if self.config.edge_types.contains(edge.label) && self.config.node_types.contains(
                edge.target.get_type(),
            ) {
                proof {
                    lemma_targets_push(done, hop);
                    assert(targets(done).push(hop.target).drop_last() =~= targets(done));
                    assert(seq![hop.target].drop_last() =~= Seq::<NodeId>::empty());
                    assert((first + done).push(hop) =~= first + done.push(hop));
                    assert(done.push(hop).drop_last() =~= done);
                    assert forall|e: EdgeType|
                        capped_add(
                            capped_add(old(self).stats.edge(e), count_label(done, e) as int),
                            if e == hop.label {
                                1int
                            } else {
                                0int
                            },
                        ) == capped_add(
                            old(self).stats.edge(e),
                            count_label(done.push(hop), e) as int,
                        ) by {}
                }
                self.stats.count_edge(edge.label);
                self.discover(edge.target.duplicate(), Ghost(Some((index as int, edge.label))));
                proof {
                    assert(self.followed@ =~= old(self).followed@.insert(
                        index as int,
                        first + done.push(hop),
                    ));
                    assert(self.status@.take(old(self).status@.len() as int) =~= mid.take(
                        old(self).status@.len() as int,
                    ));
                }
            }
            i += 1;
        }
        proof {
            assert(hops.take(i as int) =~= hops);
        }
    }

    /// Takes in the outcome of loading the node at place `index`.
    ///
    /// An outcome is taken only while the walk is running and waits for
    /// that node; otherwise nothing changes. Of a payload, the edges that
    /// leave the node are worked out, and those that the walk is allowed to
    /// follow are followed in order: each is counted, whether the node at
    /// its far end is new or not, and a new node enters the visited set and
    /// the frontier. If the node is sampled, its bulk payload is read and
    /// measured. A node whose payload could not be loaded, or whose edges
    /// could not be worked out, is counted as failed and leads nowhere.
    ///
    /// Afterwards the walk has failed if the policy says that it gives up;
    /// it is draining if the frontier is empty and nothing is in flight; it
    /// goes on otherwise.
    pub fn complete(&mut self, index: usize, outcome: Result<NodeData, LoadError>) -> (accepted:
        bool)
        requires
            old(self).wf(),
        ensures
            final(self).wf(),
            accepted == old(self).awaits(index),
            !accepted ==> *final(self) == *old(self),
            accepted ==> {
                let before = old(self)@;
                let node = before.discovered[index as int];
                let hops = followed_from(before.node_types, before.edge_types, node, outcome);
                let failed = node_failed(node, outcome);
                let read = sampled_bytes(old(self).sampling(), before.node_types, node, outcome);
                &&& !before.followed.dom().contains(index as int)
                &&& index < before.dispatched
                &&& final(self)@.node_types == before.node_types
                &&& final(self)@.edge_types == before.edge_types
                &&& final(self)@.roots == before.roots
                &&& final(self)@.dispatched == before.dispatched
                &&& final(self)@.discovered == absorb(before.discovered, targets(hops))
                &&& final(self)@.followed == before.followed.insert(index as int, hops)
                &&& final(self).errors() == if failed {
                    capped_add(old(self).errors(), 1)
                } else {
                    old(self).errors()
                }
                &&& final(self).bytes_read() == capped_add(old(self).bytes_read(), read as int)
                &&& final(self).damaged() == (old(self).damaged() || damaged_by(outcome))
                &&& final(self).fatal() == gives_up(
                    old(self).policy(),
                    failed,
                    final(self).errors(),
                    final(self)@.discovered.len(),
                    final(self).bytes_read(),
                )
                &&& final(self)@.state == if final(self).fatal() is Some {
                    WalkState::Failed
                } else if final(self)@.exhausted() {
                    WalkState::Draining
                } else {
                    WalkState::Running
                }
                &&& forall|e: EdgeType| #[trigger]
                    final(self).tally().edge(e) == capped_add(
                        old(self).tally().edge(e),
                        count_label(hops, e) as int,
                    )
                &&& forall|k: NodeType| #[trigger]
                    final(self).tally().node(k) == (NodeTally {
                        count: count_of_kind(final(self)@.discovered, k) as u64,
                        bytes: if k == node.kind() {
                            capped_add(old(self).tally().node(k).bytes, read as int)
                        } else {
                            old(self).tally().node(k).bytes
                        },
                        errors: if k == node.kind() && failed {
                            capped_add(old(self).tally().node(k).errors, 1)
                        } else {
                            old(self).tally().node(k).errors
                        },
                    })
                &&& final(self).in_flight_count() + 1 == old(self).in_flight_count()
                &&& forall|other: usize|
                    other != index && old(self).awaits(other) && final(self)@.state
                        == WalkState::Running ==> final(self).awaits(other)
            },
            final(self).policy() == old(self).policy(),
            final(self).sampling() == old(self).sampling(),
            final(self).cut_short() == old(self).cut_short(),
    {
        if self.state != WalkState::Running || index >= self.cursor {
            return false;
        }
        if self.status[index] != NodeStatus::InFlight {
            return false;
        }
        self.mark_finished(index);
        let kind = self.discovered.get(index).get_type();
        let (failed, read) = self.take_payload(index, outcome);
        proof {
            assert forall|other: usize| other != index && old(self).awaits(other)
                implies self.status@[other as int] == NodeStatus::InFlight by {
                assert(self.status@.take(old(self).status@.len() as int)[other as int]
                    == self.status@[other as int]);
            }
        }
        let ghost mid = self@;
        self.settle(kind, failed, read);
        proof {
            assert(self@.discovered == mid.discovered);
            assert(self@.followed == mid.followed);
            assert(self@.dispatched == mid.dispatched);
            assert(self@.exhausted() == mid.exhausted());
            let before = old(self)@;
            let node = before.discovered[index as int];
            let hops = followed_from(before.node_types, before.edge_types, node, outcome);
            assert(self@.followed =~= before.followed.insert(index as int, hops));
            assert(self@.discovered == absorb(before.discovered, targets(hops)));
            assert(failed == node_failed(node, outcome));
            assert(read == sampled_bytes(old(self).sampling(), before.node_types, node, outcome));
            assert(kind == node.kind());
            assert(self.in_flight_count() + 1 == old(self).in_flight_count());
            assert(self.damaged() == (old(self).damaged() || damaged_by(outcome)));
            assert forall|e: EdgeType| #[trigger]
                self.tally().edge(e) == capped_add(
                    old(self).tally().edge(e),
                    count_label(hops, e) as int,
                ) by {}
            assert forall|other: usize|
                other != index && old(self).awaits(other) && self@.state
                    == WalkState::Running implies self.awaits(other) by {}
        }
        true
    }

    /// Marks the node at place `index`, which is out for loading, as come
    /// back, with no edge followed from it yet.
    fn mark_finished(&mut self, index: usize)
        requires
            old(self).wf(),
            old(self).awaits(index),
        ensures
            final(self).wf(),
            !old(self).followed@.dom().contains(index as int),
            index < old(self)@.discovered.len(),
            final(self).followed@ == old(self).followed@.insert(index as int, Seq::empty()),
            final(self).status@ == old(self).status@.update(index as int, NodeStatus::Finished),
            final(self).in_flight + 1 == old(self).in_flight,
            final(self).discovered == old(self).discovered,
            final(self).roots@ == old(self).roots@,
            final(self).config == old(self).config,
            final(self).state == old(self).state,
            final(self).cursor == old(self).cursor,
            final(self).stats == old(self).stats,
            final(self).errors == old(self).errors,
            final(self).bytes == old(self).bytes,
            final(self).damaged == old(self).damaged,
            final(self).cut_short == old(self).cut_short,
            final(self).fatal == old(self).fatal,
    {
        let ghost before = self@;
        proof {
            lemma_count_update(self.status@, index as int, NodeStatus::Finished);
        }
        self.status.set(index, NodeStatus::Finished);
        self.in_flight = self.in_flight - 1;
        proof {
            self.followed@ = self.followed@.insert(index as int, Seq::empty());
            let after = self@;
            assert forall|at: int, k: int|
                after.followed.dom().contains(at) && 0 <= k < after.followed[at].len()
                    implies #[trigger] after.hop_in_order(at, k) by {
                assert(before.hop_in_order(at, k));
            }
            assert forall|j: int| 0 <= j < after.discovered.len()
                implies #[trigger] after.has_origin(j) by {
                assert(before.has_origin(j));
                if !before.roots.contains(before.discovered[j]) {
                    let (a, k) = choose|a: int, k: int| before.hop_found(a, k, j);
                    assert(after.hop_found(a, k, j));
                }
            }
        }
    }

    /// Reads the outcome of loading the node at place `index`: follows the
    /// edges that leave it, and measures its payload if it is sampled. Says
    /// whether the node failed and how many bytes were read.
    fn take_payload(&mut self, index: usize, outcome: Result<NodeData, LoadError>) -> (found: (
        bool,
        u64,
    ))
        requires
            old(self).wf(),
            old(self).state == WalkState::Running,
            index < old(self)@.discovered.len(),
            old(self).followed@.dom().contains(index as int),
            old(self).followed@[index as int] == Seq::<Hop>::empty(),
        ensures
            final(self).wf(),
            found.0 == node_failed(old(self)@.discovered[index as int], outcome),
            found.1 == sampled_bytes(
                old(self).config.sampling@,
                old(self)@.node_types,
                old(self)@.discovered[index as int],
                outcome,
            ),
            final(self)@.discovered == absorb(
                old(self)@.discovered,
                targets(
                    followed_from(
                        old(self)@.node_types,
                        old(self)@.edge_types,
                        old(self)@.discovered[index as int],
                        outcome,
                    ),
                ),
            ),
            final(self).followed@ == old(self).followed@.insert(
                index as int,
                followed_from(
                    old(self)@.node_types,
                    old(self)@.edge_types,
                    old(self)@.discovered[index as int],
                    outcome,
                ),
            ),
            final(self).damaged == (old(self).damaged || damaged_by(outcome)),
            final(self).roots@ == old(self).roots@,
            final(self).config == old(self).config,
            final(self).state == old(self).state,
            final(self).cursor == old(self).cursor,
            final(self).in_flight == old(self).in_flight,
            final(self).status@.take(old(self).status@.len() as int) == old(self).status@,
            final(self).errors == old(self).errors,
            final(self).bytes == old(self).bytes,
            final(self).cut_short == old(self).cut_short,
            final(self).fatal == old(self).fatal,
            forall|e: EdgeType| #[trigger]
                final(self).stats.edge(e) == capped_add(
                    old(self).stats.edge(e),
                    count_label(
                        followed_from(
                            old(self)@.node_types,
                            old(self)@.edge_types,
                            old(self)@.discovered[index as int],
                            outcome,
                        ),
                        e,
                    ) as int,
                ),
            forall|k: NodeType|
                (#[trigger] final(self).stats.node(k)).errors == old(self).stats.node(k).errors
                    && final(self).stats.node(k).bytes == old(self).stats.node(k).bytes,
    {
        let ghost before = self@;
        proof {
            assert(targets(Seq::<Hop>::empty()) =~= Seq::<NodeId>::empty());
            assert(self.followed@ =~= self.followed@.insert(index as int, Seq::empty()));
            assert(self.status@.take(self.status@.len() as int) =~= self.status@);
        }
        match outcome {
            Err(e) => {
                if e == LoadError::NotFound || e == LoadError::Corrupt {
                    self.damaged = true;
                }
                (true, 0)
            },
            Ok(mut data) => {
                match expand(self.discovered.get(index), &data) {
                    Err(_) => (true, 0),
                    Ok(edges) => {
                        self.follow_all(index, &edges);
                        proof {
                            let hops = allowed(
                                before.node_types,
                                before.edge_types,
                                hops_of(edges@),
                            );
                            assert(Seq::<Hop>::empty() + hops =~= hops);
                            crate::model::lemma_absorb(before.discovered, targets(hops));
                            assert(self@.discovered.take(before.discovered.len() as int)[index as int]
                                == self@.discovered[index as int]);
                        }
                        let mut read: u64 = 0;
                        if self.config.sampling.should_sample(
                            self.discovered.get(index),
                            &self.config.node_types,
                        ) {
                            read = measure(&mut data);
                        }
                        (false, read)
                    },
                }
            },
        }
    }

    /// Counts a node of `kind` that came back, and decides how the walk
    /// goes on.
    fn settle(&mut self, kind: NodeType, failed: bool, read: u64)
        requires
            old(self).wf(),
            old(self).state == WalkState::Running,
        ensures
            final(self).wf(),
            final(self).errors == if failed {
                capped_add(old(self).errors, 1)
            } else {
                old(self).errors
            },
            final(self).bytes == capped_add(old(self).bytes, read as int),
            final(self).fatal == gives_up(
                old(self).config.policy,
                failed,
                final(self).errors,
                old(self)@.discovered.len(),
                final(self).bytes,
            ),
            final(self).state == if final(self).fatal is Some {
                WalkState::Failed
            } else if old(self)@.exhausted() {
                WalkState::Draining
            } else {
                WalkState::Running
            },
            forall|e: EdgeType| #[trigger] final(self).stats.edge(e) == old(self).stats.edge(e),
            forall|k: NodeType| #[trigger]
                final(self).stats.node(k) == (NodeTally {
                    count: count_of_kind(old(self)@.discovered, k) as u64,
                    bytes: if k == kind {
                        capped_add(old(self).stats.node(k).bytes, read as int)
                    } else {
                        old(self).stats.node(k).bytes
                    },
                    errors: if k == kind && failed {
                        capped_add(old(self).stats.node(k).errors, 1)
                    } else {
                        old(self).stats.node(k).errors
                    },
                }),
            final(self).discovered == old(self).discovered,
            final(self).status == old(self).status,
            final(self).followed@ == old(self).followed@,
            final(self).roots@ == old(self).roots@,
            final(self).config == old(self).config,
            final(self).cursor == old(self).cursor,
            final(self).in_flight == old(self).in_flight,
            final(self).damaged == old(self).damaged,
            final(self).cut_short == old(self).cut_short,
    {
        let len: usize = self.discovered.len();
        let dry = self.cursor == len && self.in_flight == 0;
        proof {
            let before = self@;
            if dry {
                lemma_none_in_flight(self.status@);
                assert forall|at: int| 0 <= at < before.discovered.len()
                    implies before.followed.dom().contains(at) by {
                    assert(self.status@[at] != NodeStatus::Pending);
                    assert(self.status@[at] != NodeStatus::InFlight);
                }
                assert(before.exhausted());
            }
            if before.exhausted() {
                assert forall|i: int| 0 <= i < self.status@.len() implies self.status@[i]
                    == NodeStatus::Finished by {
                    assert(before.followed.dom().contains(i));
                }
                lemma_all_finished(self.status@);
            }
            assert forall|k: NodeType| count_of_kind(before.discovered, k) <= u64::MAX by {
                lemma_count_of_kind_bound(before.discovered, k);
            }
        }
        if failed {
            self.stats.count_error(kind);
            self.errors = self.errors.saturating_add(1);
        }
        let ghost mid = self.stats;
        self.stats.count_bytes(kind, read);
        self.bytes = self.bytes.saturating_add(read);
        proof {
            assert forall|k: NodeType| (#[trigger] self.stats.node(k)).count == old(
                self,
            ).stats.node(k).count by {
                assert(mid.node(k).count == old(self).stats.node(k).count);
            }
        }
        let over_errors = failed && match self.config.policy.error_limit {
            Some(limit) => self.errors > limit,
            None => false,
        };
        let over_nodes = match self.config.policy.node_budget {
            Some(budget) => len > budget,
            None => false,
        };
        let over_bytes = match self.config.policy.byte_budget {
            Some(budget) => self.bytes > budget,
            None => false,
        };
        let fatal = if failed && self.config.policy.fail_fast {
            Some(WalkFatalError::FailFast)
        } else if over_errors {
            Some(WalkFatalError::TooManyErrors)
        } else if over_nodes {
            Some(WalkFatalError::NodeBudgetExceeded)
        } else if over_bytes {
            Some(WalkFatalError::ByteBudgetExceeded)
        } else {
            None
        };
        if fatal.is_some() {
            self.fatal = fatal;
            self.state = WalkState::Failed;
        } else if dry {
            self.state = WalkState::Draining;
        }
        proof {
            lemma_inv_kept(old(self)@, self@);
        }
    }

    /// The counters count what the walk has visited: for each kind, as many
    /// nodes as the visited set holds of that kind. A walk that is draining
    /// or done, and was not called off, has run dry.
    pub proof fn lemma_counts_match(&self)
        requires
            self.wf(),
        ensures
            forall|kind: NodeType|
                (#[trigger] self.tally().node(kind)).count == count_of_kind(
                    self@.discovered,
                    kind,
                ),
            (self@.state == WalkState::Draining || self@.state == WalkState::Done)
                && !self.cut_short() ==> self@.exhausted(),
            self@.state == WalkState::Failed <==> self.fatal() is Some,
    {
    }

    /// The report that the walk would give as it stands.
    ///
    /// The report is complete if the walk has ended with every discovered
    /// node loaded, was not called off, and is not spoilt by a missing or
    /// damaged node under a strict policy. The run is a success unless the
    /// walk has failed, or a node was missing or damaged under a strict
    /// policy.
    pub open spec fn report(&self) -> WalkReport {
        let spoilt = self.policy().strict && self.damaged();
        WalkReport {
            stats: self.tally(),
            state: self@.state,
            visited: self@.discovered.len() as usize,
            errors: self.errors(),
            bytes: self.bytes_read(),
            complete: self@.state == WalkState::Done && !self.cut_short() && !spoilt,
            success: self@.state != WalkState::Failed && !spoilt,
            fatal: self.fatal(),
        }
    }

    /// A report of the walk as it stands. Taking one changes nothing, at
    /// any time.
    pub fn snapshot(&self) -> (report: WalkReport)
        ensures
            report == self.report(),
    {
        let spoilt = self.config.policy.strict && self.damaged;
        WalkReport {
            stats: self.stats,
            state: self.state,
            visited: self.discovered.len(),
            errors: self.errors,
            bytes: self.bytes,
            complete: self.state == WalkState::Done && !self.cut_short && !spoilt,
            success: self.state != WalkState::Failed && !spoilt,
            fatal: self.fatal,
        }
    }

    /// Calls the walk off. A walk that waits for roots or is running goes
    /// to draining at once, with whatever is on the frontier or in flight
    /// left behind, and its counters are from then on those of a part of the
    /// graph. A walk that is draining or has ended is left as it is.
    pub fn cancel(&mut self) -> (stopped: bool)
        requires
            old(self).wf(),
        ensures
            final(self).wf(),
            stopped == (old(self)@.state == WalkState::Seeding || old(self)@.state
                == WalkState::Running),
            !stopped ==> *final(self) == *old(self),
            stopped ==> final(self)@ == (WalkModel { state: WalkState::Draining, ..old(self)@ })
                && final(self).cut_short(),
            final(self).fatal() == old(self).fatal(),
            final(self).tally() == old(self).tally(),
            final(self).policy() == old(self).policy(),
            final(self).sampling() == old(self).sampling(),
            final(self).errors() == old(self).errors(),
            final(self).bytes_read() == old(self).bytes_read(),
            final(self).damaged() == old(self).damaged(),
    {
        if self.state == WalkState::Seeding || self.state == WalkState::Running {
            self.state = WalkState::Draining;
            self.cut_short = true;
            proof {
                lemma_inv_kept(old(self)@, self@);
            }
            true
        } else {
            false
        }
    }

    /// Ends the walk and gives its report. A draining walk is done; a walk
    /// in any other state stays in it, and the report says so.
    pub fn finish(&mut self) -> (report: WalkReport)
        requires
            old(self).wf(),
        ensures
            final(self).wf(),
            final(self)@ == (WalkModel {
                state: if old(self)@.state == WalkState::Draining {
                    WalkState::Done
                } else {
                    old(self)@.state
                },
                ..old(self)@
            }),
            report == final(self).report(),
            report.complete ==> final(self)@.exhausted(),
            report.fatal is Some <==> report.state == WalkState::Failed,
            final(self).tally() == old(self).tally(),
            final(self).policy() == old(self).policy(),
            final(self).sampling() == old(self).sampling(),
            final(self).errors() == old(self).errors(),
            final(self).bytes_read() == old(self).bytes_read(),
            final(self).damaged() == old(self).damaged(),
            final(self).cut_short() == old(self).cut_short(),
            final(self).fatal() == old(self).fatal(),
    {
        if self.state == WalkState::Draining {
            self.state = WalkState::Done;
            proof {
                lemma_inv_kept(old(self)@, self@);
                assert(self@.discovered == old(self)@.discovered);
                assert(self@.followed == old(self)@.followed);
                assert(self@.dispatched == old(self)@.dispatched);
                assert(self@.exhausted() == old(self)@.exhausted());
            }
        }
        self.snapshot()
    }

    /// Where the walk stands.
    pub fn state(&self) -> (state: WalkState)
        ensures
            state == self@.state,
    {
        self.state
    }

    /// The counters as they stand. Reading them changes nothing.
    pub fn stats(&self) -> (stats: WalkStats)
        ensures
            stats == self.tally(),
    {
        self.stats
    }

    /// How many nodes were discovered so far.
    pub fn visited_count(&self) -> (count: usize)
        ensures
            count == self@.discovered.len(),
    {
        self.discovered.len()
    }

    /// How many nodes wait on the frontier.
    pub fn frontier_len(&self) -> (count: usize)
        requires
            self.wf(),
        ensures
            count == self@.frontier().len(),
    {
        self.discovered.len() - self.cursor
    }

    /// How many nodes are out for loading.
    pub fn in_flight(&self) -> (count: usize)
        ensures
            count == self.in_flight_count(),
    {
        self.in_flight
    }

    /// How many nodes are out for loading.
    pub closed spec fn in_flight_count(&self) -> nat {
        self.in_flight as nat
    }

    /// The node at place `index` in the order of discovery.
    pub fn node(&self, index: usize) -> (node: Option<&Node>)
        ensures
            match node {
                Some(n) => index < self@.discovered.len() && n@ == self@.discovered[index as int],
                None => index >= self@.discovered.len(),
            },
    {
        if index < self.discovered.len() {
            Some(self.discovered.get(index))
        } else {
            None
        }
    }

    /// The place of `node` in the order of discovery, if it was discovered.
    pub fn position(&self, node: &Node) -> (place: Option<usize>)
        requires
            self.wf(),
        ensures
            match place {
                Some(i) => i < self@.discovered.len() && self@.discovered[i as int] == node@,
                None => !self@.discovered.contains(node@),
            },
    {
        self.discovered.position(node)
    }

    /// Whether `node` was discovered.
    pub fn contains(&self, node: &Node) -> (found: bool)
        requires
            self.wf(),
        ensures
            found == self@.visited().contains(node@),
    {
        self.position(node).is_some()
    }
}

} // verus!

//! The visited set: the nodes that a walk has discovered, each once, in the
//! order of their discovery.
//!
//! The set only grows. Membership is by exact identity; a node is found by
//! way of its fingerprint, which leads to the few places in the list that
//! hold a node with that fingerprint.

use std::collections::HashMap;
use vstd::prelude::*;
use crate::node::{Node, NodeId};

verus! {

broadcast use vstd::std_specs::hash::group_hash_axioms;

/// The key under which a node is filed: its fingerprint.
pub open spec fn key_of(node: NodeId) -> u64 {
    node.fingerprint() as u64
}

/// The nodes discovered so far.
pub struct VisitedSet {
    /// The nodes, in the order of discovery.
    nodes: Vec<Node>,
    /// For each fingerprint, the places of the nodes that have it.
    places: HashMap<u64, Vec<usize>>,
}

impl View for VisitedSet {
    type V = Seq<NodeId>;

    closed spec fn view(&self) -> Seq<NodeId> {
        Seq::new(self.nodes@.len(), |i: int| self.nodes@[i]@)
    }
}

impl VisitedSet {
    /// Whether the places filed under `key` are places of nodes with that
    /// fingerprint.
    spec fn filed_right(&self, key: u64) -> bool {
        forall|k: int|
            0 <= k < self.places@[key]@.len() ==> {
                let at = #[trigger] self.places@[key]@[k];
                at < self.nodes@.len() && key_of(self.nodes@[at as int]@) == key
            }
    }

    /// Whether the node at place `at` is filed under its fingerprint.
    spec fn is_filed(&self, at: int) -> bool {
        let key = key_of(self.nodes@[at]@);
        self.places@.contains_key(key) && self.places@[key]@.contains(at as usize)
    }

    /// Whether the set is in order: no node is in it twice, and each is
    /// filed where it is looked for. Every set that this module hands out
    /// is, and stays so.
    pub closed spec fn wf(&self) -> bool {
        &&& self@.no_duplicates()
        &&& forall|key: u64| self.places@.contains_key(key) ==> #[trigger] self.filed_right(key)
        &&& forall|at: int| 0 <= at < self.nodes@.len() ==> #[trigger] self.is_filed(at)
    }

    /// The set without members.
    pub fn new() -> (set: VisitedSet)
        ensures
            set.wf(),
            set@ == Seq::<NodeId>::empty(),
    {
        let set = VisitedSet { nodes: Vec::new(), places: HashMap::new() };
        assert(set@ =~= Seq::<NodeId>::empty());
        set
    }

    /// How many nodes are in the set.
    pub fn len(&self) -> (len: usize)
        ensures
            len == self@.len(),
    {
        self.nodes.len()
    }

    /// The node at place `at` in the order of discovery.
    pub fn get(&self, at: usize) -> (node: &Node)
        requires
            at < self@.len(),
        ensures
            node@ == self@[at as int],
    {
        &self.nodes[at]
    }

    /// The place of `node` in the order of discovery, if it is in the set.
    pub fn position(&self, node: &Node) -> (place: Option<usize>)
        requires
            self.wf(),
        ensures
            match place {
                Some(at) => at < self@.len() && self@[at as int] == node@,
                None => !self@.contains(node@),
            },
    {
        let key = node.sampling_fingerprint();
        let total: usize = self.nodes.len();
        assert(key_of(node@) == key);
        match self.places.get(&key) {
            None => {
                proof {
                    if self@.contains(node@) {
                        let at = choose|at: int| 0 <= at < self@.len() && self@[at] == node@;
                        assert(self.is_filed(at));
                    }
                }
                None
            },
            Some(filed) => {
                let mut k: usize = 0;
                while k < filed.len()
                    invariant
                        k <= filed@.len(),
                        total == self.nodes@.len(),
                        self.wf(),
                        self.places@.contains_key(key),
                        self.places@[key] == *filed,
                        forall|j: int|
                            0 <= j < k ==> filed@[j] < self@.len() && self@[filed@[j] as int]
                                != node@,
                    decreases filed@.len() - k,
                {
                    let at = filed[k];
                    proof {
                        assert(self.filed_right(key));
                        assert(self.places@[key]@[k as int] == at);
                    }
                    if self.nodes[at].same(node) {
                        return Some(at);
                    }
                    k += 1;
                }
                proof {
                    if self@.contains(node@) {
                        let at = choose|at: int| 0 <= at < self@.len() && self@[at] == node@;
                        assert(self.is_filed(at));
                        let j = choose|j: int| 0 <= j < filed@.len() && filed@[j] == at as usize;
                        assert(self@[filed@[j] as int] != node@);
                    }
                }
                None
            },
        }
    }

    /// Takes `node`, which is not in the set, into the set as its last
    /// member.
    pub fn push_new(&mut self, node: Node)
        requires
            old(self).wf(),
            !old(self)@.contains(node@),
        ensures
            final(self).wf(),
            final(self)@ == old(self)@.push(node@),
    {
        let key = node.sampling_fingerprint();
        let at: usize = self.nodes.len();
        let ghost id = node@;
        let ghost before_places = self.places@;
        let mut filed: Vec<usize> = match self.places.remove(&key) {
            Some(filed) => filed,
            None => Vec::new(),
        };
        let ghost before_filed = filed@;
        filed.push(at);
        let ghost after_filed = filed@;
        self.places.insert(key, filed);
        self.nodes.push(node);
        proof {
            assert(self@ =~= old(self)@.push(id));
            assert(key_of(id) == key);
            assert forall|other: u64| self.places@.contains_key(other)
                implies #[trigger] self.filed_right(other) by {
                if other == key {
                    assert forall|k: int| 0 <= k < self.places@[key]@.len() implies {
                        let place = #[trigger] self.places@[key]@[k];
                        place < self.nodes@.len() && key_of(self.nodes@[place as int]@) == key
                    } by {
                        if k < before_filed.len() {
                            assert(before_places.contains_key(key));
                            assert(old(self).filed_right(key));
                            assert(before_places[key]@[k] == after_filed[k]);
                        }
                    }
                } else {
                    assert(old(self).filed_right(other));
                }
            }
            assert forall|place: int| 0 <= place < self.nodes@.len()
                implies #[trigger] self.is_filed(place) by {
                if place < at {
                    assert(old(self).is_filed(place));
                    let other = key_of(self.nodes@[place]@);
                    if other == key {
                        let j = choose|j: int|
                            0 <= j < before_filed.len() && before_filed[j] == place as usize;
                        assert(after_filed[j] == place as usize);
                    }
                } else {
                    assert(after_filed[before_filed.len() as int] == at);
                }
            }
            assert(self@.no_duplicates());
        }
    }
}

} // verus!

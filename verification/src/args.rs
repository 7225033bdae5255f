//! Reading configuration: lists of names into sets of kinds.
//!
//! Names are checked against the schema's vocabulary before anything is
//! loaded; a name outside it is an error and nothing is walked.

use vstd::prelude::*;
use crate::error::{ConfigError, ConfigFault};
use crate::graph::{edge_type_named, node_type_named, EdgeType, NodeType, EDGE_TYPE_COUNT};
use crate::model::{is_live, live_edges};
use crate::typeset::{EdgeTypeSet, NodeTypeSet};

verus! {

/// The texts of a list of strings.
pub open spec fn texts(strings: Seq<String>) -> Seq<Seq<char>> {
    Seq::new(strings.len(), |i: int| strings[i]@)
}

/// The set of kinds that a list of names spells, read from left to right;
/// the first name that spells none is the fault.
pub open spec fn kinds_named(names: Seq<Seq<char>>) -> Result<Set<NodeType>, ConfigFault>
    decreases names.len(),
{
    if names.len() == 0 {
        Ok(Set::empty())
    } else {
        match kinds_named(names.drop_last()) {
            Err(fault) => Err(fault),
            Ok(kinds) => match node_type_named(names.last()) {
                Some(kind) => Ok(kinds.insert(kind)),
                None => Err(ConfigFault::UnknownNodeType(names.last())),
            },
        }
    }
}

/// A list of names spells a set of kinds exactly when each name spells a
/// kind; the set then holds the kinds spelt and no other, and a fault
/// reports the leftmost name that spells none.
pub proof fn lemma_kinds_named(names: Seq<Seq<char>>)
    ensures
        match kinds_named(names) {
            Ok(kinds) => {
                &&& forall|i: int| 0 <= i < names.len() ==> node_type_named(names[i]) is Some
                &&& forall|kind: NodeType|
                    kinds.contains(kind) <==> exists|i: int|
                        0 <= i < names.len() && node_type_named(names[i]) == Some(kind)
            },
            Err(fault) => exists|i: int|
                {
                    &&& 0 <= i < names.len()
                    &&& node_type_named(#[trigger] names[i]) is None
                    &&& fault == ConfigFault::UnknownNodeType(names[i])
                    &&& forall|j: int| 0 <= j < i ==> node_type_named(names[j]) is Some
                },
        },
    decreases names.len(),
{
    if names.len() > 0 {
        let front = names.drop_last();
        let last = names.len() - 1;
        lemma_kinds_named(front);
        assert(forall|i: int| 0 <= i < front.len() ==> front[i] == names[i]);
        match kinds_named(front) {
            Err(fault) => {
                let i = choose|i: int|
                    {
                        &&& 0 <= i < front.len()
                        &&& node_type_named(#[trigger] front[i]) is None
                        &&& fault == ConfigFault::UnknownNodeType(front[i])
                        &&& forall|j: int| 0 <= j < i ==> node_type_named(front[j]) is Some
                    };
                assert(names[i] == front[i]);
            },
            Ok(kinds) => {
                match node_type_named(names.last()) {
                    Some(kind) => {
                        let all = kinds.insert(kind);
                        assert forall|k: NodeType| all.contains(k) <==> exists|i: int|
                            0 <= i < names.len() && node_type_named(names[i]) == Some(k) by {
                            if all.contains(k) {
                                if k == kind {
                                    assert(node_type_named(names[last]) == Some(k));
                                } else {
                                    let i = choose|i: int|
                                        0 <= i < front.len() && node_type_named(front[i]) == Some(
                                            k,
                                        );
                                    assert(node_type_named(names[i]) == Some(k));
                                }
                            }
                            if exists|i: int|
                                0 <= i < names.len() && node_type_named(names[i]) == Some(k) {
                                let i = choose|i: int|
                                    0 <= i < names.len() && node_type_named(names[i]) == Some(k);
                                if i < last {
                                    assert(node_type_named(front[i]) == Some(k));
                                }
                            }
                        }
                    },
                    None => {
                        assert(names[last] == names.last());
                    },
                }
            },
        }
    }
}

/// Reads a list of kind names into a set.
pub fn parse_node_values(values: &Vec<String>) -> (parsed: Result<NodeTypeSet, ConfigError>)
    ensures
        match kinds_named(texts(values@)) {
            Ok(kinds) => parsed matches Ok(set) && set@ == kinds,
            Err(fault) => parsed matches Err(e) && e@ == fault,
        },
{
    let mut set = NodeTypeSet::empty();
    let mut i: usize = 0;
    while i < values.len()
        invariant
            i <= values@.len(),
            kinds_named(texts(values@).take(i as int)) == Ok::<Set<NodeType>, ConfigFault>(set@),
        decreases values@.len() - i,
    {
        let ghost names = texts(values@);
        proof {
            assert(names.take(i + 1).drop_last() =~= names.take(i as int));
            assert(names.take(i + 1).last() == values@[i as int]@);
        }
        match NodeType::from_str(values[i].as_str()) {
            Ok(kind) => {
                set.insert(kind);
            },
            Err(e) => {
                proof {
                    lemma_kinds_named_fault_stays(names, i + 1);
                }
                return Err(e);
            },
        }
        i += 1;
    }
    proof {
        assert(texts(values@).take(i as int) =~= texts(values@));
    }
    Ok(set)
}

/// A fault found in the first `n` names is the fault of the whole list.
proof fn lemma_kinds_named_fault_stays(names: Seq<Seq<char>>, n: int)
    requires
        0 <= n <= names.len(),
        kinds_named(names.take(n)) is Err,
    ensures
        kinds_named(names) == kinds_named(names.take(n)),
    decreases names.len() - n,
{
    if n < names.len() {
        assert(names.take(n + 1).drop_last() =~= names.take(n));
        lemma_kinds_named_fault_stays(names, n + 1);
    } else {
        assert(names.take(n) =~= names);
    }
}

/// Reads the names to sample and the names to leave out into the set of
/// kinds that were asked for and not left out.
pub fn parse_node_types(wanted: &Vec<String>, unwanted: &Vec<String>) -> (parsed: Result<
    NodeTypeSet,
    ConfigError,
>)
    ensures
        match kinds_named(texts(wanted@)) {
            Err(fault) => parsed matches Err(e) && e@ == fault,
            Ok(asked) => match kinds_named(texts(unwanted@)) {
                Err(fault) => parsed matches Err(e) && e@ == fault,
                Ok(left_out) => parsed matches Ok(set) && set@ == asked.difference(left_out),
            },
        },
{
    let asked = match parse_node_values(wanted) {
        Ok(set) => set,
        Err(e) => {
            return Err(e);
        },
    };
    let left_out = match parse_node_values(unwanted) {
        Ok(set) => set,
        Err(e) => {
            return Err(e);
        },
    };
    Ok(asked.difference(&left_out))
}

/// The set of edge kinds that a list of names spells, read from left to right;
/// the first name that spells none is the fault.
pub open spec fn edge_kinds_named(names: Seq<Seq<char>>) -> Result<Set<EdgeType>, ConfigFault>
    decreases names.len(),
{
    if names.len() == 0 {
        Ok(Set::empty())
    } else {
        match edge_kinds_named(names.drop_last()) {
            Err(fault) => Err(fault),
            Ok(kinds) => match edge_type_named(names.last()) {
                Some(kind) => Ok(kinds.insert(kind)),
                None => Err(ConfigFault::UnknownEdgeType(names.last())),
            },
        }
    }
}

/// A list of names spells a set of edge kinds exactly when each name spells
/// one; the set then holds the kinds spelt and no other, and a fault
/// reports the leftmost name that spells none.
pub proof fn lemma_edge_kinds_named(names: Seq<Seq<char>>)
    ensures
        match edge_kinds_named(names) {
            Ok(kinds) => {
                &&& forall|i: int| 0 <= i < names.len() ==> edge_type_named(names[i]) is Some
                &&& forall|kind: EdgeType|
                    kinds.contains(kind) <==> exists|i: int|
                        0 <= i < names.len() && edge_type_named(names[i]) == Some(kind)
            },
            Err(fault) => exists|i: int|
                {
                    &&& 0 <= i < names.len()
                    &&& edge_type_named(#[trigger] names[i]) is None
                    &&& fault == ConfigFault::UnknownEdgeType(names[i])
                    &&& forall|j: int| 0 <= j < i ==> edge_type_named(names[j]) is Some
                },
        },
    decreases names.len(),
{
    if names.len() > 0 {
        let front = names.drop_last();
        let last = names.len() - 1;
        lemma_edge_kinds_named(front);
        assert(forall|i: int| 0 <= i < front.len() ==> front[i] == names[i]);
        match edge_kinds_named(front) {
            Err(fault) => {
                let i = choose|i: int|
                    {
                        &&& 0 <= i < front.len()
                        &&& edge_type_named(#[trigger] front[i]) is None
                        &&& fault == ConfigFault::UnknownEdgeType(front[i])
                        &&& forall|j: int| 0 <= j < i ==> edge_type_named(front[j]) is Some
                    };
                assert(names[i] == front[i]);
            },
            Ok(kinds) => {
                match edge_type_named(names.last()) {
                    Some(kind) => {
                        let all = kinds.insert(kind);
                        assert forall|k: EdgeType| all.contains(k) <==> exists|i: int|
                            0 <= i < names.len() && edge_type_named(names[i]) == Some(k) by {
                            if all.contains(k) {
                                if k == kind {
                                    assert(edge_type_named(names[last]) == Some(k));
                                } else {
                                    let i = choose|i: int|
                                        0 <= i < front.len() && edge_type_named(front[i]) == Some(
                                            k,
                                        );
                                    assert(edge_type_named(names[i]) == Some(k));
                                }
                            }
                            if exists|i: int|
                                0 <= i < names.len() && edge_type_named(names[i]) == Some(k) {
                                let i = choose|i: int|
                                    0 <= i < names.len() && edge_type_named(names[i]) == Some(k);
                                if i < last {
                                    assert(edge_type_named(front[i]) == Some(k));
                                }
                            }
                        }
                    },
                    None => {
                        assert(names[last] == names.last());
                    },
                }
            },
        }
    }
}

/// Reads a list of edge kind names into a set.
pub fn parse_edge_values(values: &Vec<String>) -> (parsed: Result<EdgeTypeSet, ConfigError>)
    ensures
        match edge_kinds_named(texts(values@)) {
            Ok(kinds) => parsed matches Ok(set) && set@ == kinds,
            Err(fault) => parsed matches Err(e) && e@ == fault,
        },
{
    let mut set = EdgeTypeSet::empty();
    let mut i: usize = 0;
    while i < values.len()
        invariant
            i <= values@.len(),
            edge_kinds_named(texts(values@).take(i as int)) == Ok::<Set<EdgeType>, ConfigFault>(set@),
        decreases values@.len() - i,
    {
        let ghost names = texts(values@);
        proof {
            assert(names.take(i + 1).drop_last() =~= names.take(i as int));
            assert(names.take(i + 1).last() == values@[i as int]@);
        }
        match EdgeType::from_str(values[i].as_str()) {
            Ok(kind) => {
                set.insert(kind);
            },
            Err(e) => {
                proof {
                    lemma_edge_kinds_fault_stays(names, i + 1);
                }
                return Err(e);
            },
        }
        i += 1;
    }
    proof {
        assert(texts(values@).take(i as int) =~= texts(values@));
    }
    Ok(set)
}

/// A fault found in the first `n` names is the fault of the whole list.
proof fn lemma_edge_kinds_fault_stays(names: Seq<Seq<char>>, n: int)
    requires
        0 <= n <= names.len(),
        edge_kinds_named(names.take(n)) is Err,
    ensures
        edge_kinds_named(names) == edge_kinds_named(names.take(n)),
    decreases names.len() - n,
{
    if n < names.len() {
        assert(names.take(n + 1).drop_last() =~= names.take(n));
        lemma_edge_kinds_fault_stays(names, n + 1);
    } else {
        assert(names.take(n) =~= names);
    }
}

/// The edge kinds of `edge_types` that can be followed where only nodes of
/// `node_types` are visited: those whose source kind, if they have one, and
/// destination kind are both visited.
pub fn live_edge_types(node_types: &NodeTypeSet, edge_types: &EdgeTypeSet) -> (live: EdgeTypeSet)
    ensures
        live@ == live_edges(node_types@, edge_types@),
{
    let mut live = EdgeTypeSet::empty();
    let mut i: usize = 0;
    while i < EDGE_TYPE_COUNT
        invariant
            i <= EDGE_TYPE_COUNT,
            forall|edge: EdgeType|
                live@.contains(edge) <==> edge.index() < i && edge_types@.contains(edge) && is_live(
                    node_types@,
                    edge,
                ),
        decreases EDGE_TYPE_COUNT - i,
    {
        match EdgeType::from_ordinal(i) {
            Some(edge) => {
                let from_visited = match edge.incoming_type() {
                    Some(from) => node_types.contains(from),
                    None => true,
                };
                if edge_types.contains(edge) && from_visited && node_types.contains(
                    edge.outgoing_type(),
                ) {
                    live.insert(edge);
                }
            },
            None => {},
        }
        i += 1;
    }
    assert(live@ =~= live_edges(node_types@, edge_types@));
    live
}

} // verus!

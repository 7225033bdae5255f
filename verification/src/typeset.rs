//! Sets of node kinds and of edge kinds: what a walk is allowed to visit and
//! to follow, and what sampling looks at.

use vstd::prelude::*;
use crate::graph::{EdgeType, NodeType, EDGE_TYPE_COUNT, NODE_TYPE_COUNT};

verus! {

/// A set of node kinds.
#[derive(Clone, Copy, Debug, PartialEq, Eq)]
pub struct NodeTypeSet {
    members: [bool; NODE_TYPE_COUNT],
}

impl View for NodeTypeSet {
    type V = Set<NodeType>;

    closed spec fn view(&self) -> Set<NodeType> {
        Set::new(|kind: NodeType| self.members@[kind.index()])
    }
}

impl NodeTypeSet {
    /// The set without members.
    pub fn empty() -> (set: NodeTypeSet)
        ensures
            set@ == Set::<NodeType>::empty(),
    {
        let set = NodeTypeSet { members: [false; NODE_TYPE_COUNT] };
        assert(set@ =~= Set::<NodeType>::empty());
        set
    }

    /// The set of every node kind.
    pub fn all() -> (set: NodeTypeSet)
        ensures
            set@ == Set::<NodeType>::full(),
    {
        let set = NodeTypeSet { members: [true; NODE_TYPE_COUNT] };
        assert(set@ =~= Set::<NodeType>::full());
        set
    }

    /// The set of the kinds listed in `kinds`.
    pub fn from_kinds(kinds: &[NodeType]) -> (set: NodeTypeSet)
        ensures
            set@ == kinds@.to_set(),
    {
        let mut set = NodeTypeSet::empty();
        let mut i: usize = 0;
        while i < kinds.len()
            invariant
                i <= kinds@.len(),
                set@ == kinds@.take(i as int).to_set(),
            decreases kinds@.len() - i,
        {
            proof {
                let before = kinds@.take(i as int);
                let after = kinds@.take(i + 1);
                assert(after =~= before.push(kinds@[i as int]));
                assert forall|k: NodeType| after.to_set().contains(k) <==> before.to_set().insert(
                    kinds@[i as int],
                ).contains(k) by {
                    if after.contains(k) {
                        let j = choose|j: int| 0 <= j < after.len() && after[j] == k;
                        if j < i {
                            assert(before[j] == k);
                        }
                    }
                    if before.contains(k) {
                        let j = choose|j: int| 0 <= j < before.len() && before[j] == k;
                        assert(after[j] == k);
                    }
                    assert(after[i as int] == kinds@[i as int]);
                }
                assert(after.to_set() =~= before.to_set().insert(kinds@[i as int]));
            }
            set.insert(kinds[i]);
            i += 1;
        }
        assert(kinds@.take(i as int) =~= kinds@);
        set
    }

    /// Whether `kind` is a member.
    pub fn contains(&self, kind: NodeType) -> (found: bool)
        ensures
            found == self@.contains(kind),
    {
        self.members[kind.ordinal()]
    }

    /// Makes `kind` a member.
    pub fn insert(&mut self, kind: NodeType)
        ensures
            final(self)@ == old(self)@.insert(kind),
    {
        let i: usize = kind.ordinal();
        self.members[i] = true;
        assert(self@ =~= old(self)@.insert(kind));
    }

    /// Makes `kind` no member.
    pub fn remove(&mut self, kind: NodeType)
        ensures
            final(self)@ == old(self)@.remove(kind),
    {
        let i: usize = kind.ordinal();
        self.members[i] = false;
        assert(self@ =~= old(self)@.remove(kind));
    }

    /// Whether the set has no member.
    pub fn is_empty(&self) -> (none: bool)
        ensures
            none == (self@ == Set::<NodeType>::empty()),
    {
        let mut i: usize = 0;
        while i < NODE_TYPE_COUNT
            invariant
                i <= NODE_TYPE_COUNT,
                forall|j: int| 0 <= j < i ==> !self.members@[j],
            decreases NODE_TYPE_COUNT - i,
        {
            if self.members[i] {
                proof {
                    let kind = choose|kind: NodeType| kind.index() == i;
                    assert(self@.contains(kind)) by {
                        Self::lemma_every_index(i as int);
                    }
                }
                return false;
            }
            i += 1;
        }
        assert(self@ =~= Set::<NodeType>::empty());
        true
    }

    /// The members of `self` that are no members of `other`.
    pub fn difference(&self, other: &NodeTypeSet) -> (set: NodeTypeSet)
        ensures
            set@ == self@.difference(other@),
    {
        let mut set = NodeTypeSet::empty();
        let mut i: usize = 0;
        while i < NODE_TYPE_COUNT
            invariant
                i <= NODE_TYPE_COUNT,
                forall|j: int|
                    0 <= j < i ==> set.members@[j] == (self.members@[j] && !other.members@[j]),
            decreases NODE_TYPE_COUNT - i,
        {
            let member = self.members[i] && !other.members[i];
            set.members[i] = member;
            i += 1;
        }
        assert(set@ =~= self@.difference(other@));
        set
    }

    /// The members of `self` that are members of `other` too.
    pub fn intersect(&self, other: &NodeTypeSet) -> (set: NodeTypeSet)
        ensures
            set@ == self@.intersect(other@),
    {
        let mut set = NodeTypeSet::empty();
        let mut i: usize = 0;
        while i < NODE_TYPE_COUNT
            invariant
                i <= NODE_TYPE_COUNT,
                forall|j: int|
                    0 <= j < i ==> set.members@[j] == (self.members@[j] && other.members@[j]),
            decreases NODE_TYPE_COUNT - i,
        {
            let member = self.members[i] && other.members[i];
            set.members[i] = member;
            i += 1;
        }
        assert(set@ =~= self@.intersect(other@));
        set
    }

    /// Every position below the count is the position of a kind.
    proof fn lemma_every_index(i: int)
        requires
            0 <= i < NODE_TYPE_COUNT,
        ensures
            exists|kind: NodeType| kind.index() == i,
    {
        assert(NodeType::Bookmark.index() == 0);
        assert(NodeType::BonsaiChangeset.index() == 1);
        assert(NodeType::BonsaiHgMapping.index() == 2);
        assert(NodeType::HgBonsaiMapping.index() == 3);
        assert(NodeType::HgChangeset.index() == 4);
        assert(NodeType::HgManifest.index() == 5);
        assert(NodeType::HgFileEnvelope.index() == 6);
        assert(NodeType::HgFileNode.index() == 7);
        assert(NodeType::FileContent.index() == 8);
        assert(NodeType::FileContentMetadata.index() == 9);
        assert(NodeType::AliasContentMapping.index() == 10);
    }
}

/// A set of edge kinds.
#[derive(Clone, Copy, Debug, PartialEq, Eq)]
pub struct EdgeTypeSet {
    members: [bool; EDGE_TYPE_COUNT],
}

impl View for EdgeTypeSet {
    type V = Set<EdgeType>;

    closed spec fn view(&self) -> Set<EdgeType> {
        Set::new(|kind: EdgeType| self.members@[kind.index()])
    }
}

impl EdgeTypeSet {
    /// The set without members.
    pub fn empty() -> (set: EdgeTypeSet)
        ensures
            set@ == Set::<EdgeType>::empty(),
    {
        let set = EdgeTypeSet { members: [false; EDGE_TYPE_COUNT] };
        assert(set@ =~= Set::<EdgeType>::empty());
        set
    }

    /// The set of every edge kind.
    pub fn all() -> (set: EdgeTypeSet)
        ensures
            set@ == Set::<EdgeType>::full(),
    {
        let set = EdgeTypeSet { members: [true; EDGE_TYPE_COUNT] };
        assert(set@ =~= Set::<EdgeType>::full());
        set
    }

    /// The set of the kinds listed in `kinds`.
    pub fn from_kinds(kinds: &[EdgeType]) -> (set: EdgeTypeSet)
        ensures
            set@ == kinds@.to_set(),
    {
        let mut set = EdgeTypeSet::empty();
        let mut i: usize = 0;
        while i < kinds.len()
            invariant
                i <= kinds@.len(),
                set@ == kinds@.take(i as int).to_set(),
            decreases kinds@.len() - i,
        {
            proof {
                let before = kinds@.take(i as int);
                let after = kinds@.take(i + 1);
                assert(after =~= before.push(kinds@[i as int]));
                assert forall|k: EdgeType| after.to_set().contains(k) <==> before.to_set().insert(
                    kinds@[i as int],
                ).contains(k) by {
                    if after.contains(k) {
                        let j = choose|j: int| 0 <= j < after.len() && after[j] == k;
                        if j < i {
                            assert(before[j] == k);
                        }
                    }
                    if before.contains(k) {
                        let j = choose|j: int| 0 <= j < before.len() && before[j] == k;
                        assert(after[j] == k);
                    }
                    assert(after[i as int] == kinds@[i as int]);
                }
                assert(after.to_set() =~= before.to_set().insert(kinds@[i as int]));
            }
            set.insert(kinds[i]);
            i += 1;
        }
        assert(kinds@.take(i as int) =~= kinds@);
        set
    }

    /// Whether `kind` is a member.
    pub fn contains(&self, kind: EdgeType) -> (found: bool)
        ensures
            found == self@.contains(kind),
    {
        self.members[kind.ordinal()]
    }

    /// Makes `kind` a member.
    pub fn insert(&mut self, kind: EdgeType)
        ensures
            final(self)@ == old(self)@.insert(kind),
    {
        let i: usize = kind.ordinal();
        self.members[i] = true;
        assert(self@ =~= old(self)@.insert(kind));
    }

    /// Makes `kind` no member.
    pub fn remove(&mut self, kind: EdgeType)
        ensures
            final(self)@ == old(self)@.remove(kind),
    {
        let i: usize = kind.ordinal();
        self.members[i] = false;
        assert(self@ =~= old(self)@.remove(kind));
    }

    /// Whether the set has no member.
    pub fn is_empty(&self) -> (none: bool)
        ensures
            none == (self@ == Set::<EdgeType>::empty()),
    {
        let mut i: usize = 0;
        while i < EDGE_TYPE_COUNT
            invariant
                i <= EDGE_TYPE_COUNT,
                forall|j: int| 0 <= j < i ==> !self.members@[j],
            decreases EDGE_TYPE_COUNT - i,
        {
            if self.members[i] {
                proof {
                    let kind = choose|kind: EdgeType| kind.index() == i;
                    assert(self@.contains(kind)) by {
                        Self::lemma_every_index(i as int);
                    }
                }
                return false;
            }
            i += 1;
        }
        assert(self@ =~= Set::<EdgeType>::empty());
        true
    }

    /// The members of `self` that are no members of `other`.
    pub fn difference(&self, other: &EdgeTypeSet) -> (set: EdgeTypeSet)
        ensures
            set@ == self@.difference(other@),
    {
        let mut set = EdgeTypeSet::empty();
        let mut i: usize = 0;
        while i < EDGE_TYPE_COUNT
            invariant
                i <= EDGE_TYPE_COUNT,
                forall|j: int|
                    0 <= j < i ==> set.members@[j] == (self.members@[j] && !other.members@[j]),
            decreases EDGE_TYPE_COUNT - i,
        {
            let member = self.members[i] && !other.members[i];
            set.members[i] = member;
            i += 1;
        }
        assert(set@ =~= self@.difference(other@));
        set
    }

    /// The members of `self` that are members of `other` too.
    pub fn intersect(&self, other: &EdgeTypeSet) -> (set: EdgeTypeSet)
        ensures
            set@ == self@.intersect(other@),
    {
        let mut set = EdgeTypeSet::empty();
        let mut i: usize = 0;
        while i < EDGE_TYPE_COUNT
            invariant
                i <= EDGE_TYPE_COUNT,
                forall|j: int|
                    0 <= j < i ==> set.members@[j] == (self.members@[j] && other.members@[j]),
            decreases EDGE_TYPE_COUNT - i,
        {
            let member = self.members[i] && other.members[i];
            set.members[i] = member;
            i += 1;
        }
        assert(set@ =~= self@.intersect(other@));
        set
    }

    /// Every position below the count is the position of a kind.
    proof fn lemma_every_index(i: int)
        requires
            0 <= i < EDGE_TYPE_COUNT,
        ensures
            exists|kind: EdgeType| kind.index() == i,
    {
        assert(EdgeType::RootToBookmark.index() == 0);
        assert(EdgeType::BookmarkToBonsaiChangeset.index() == 1);
        assert(EdgeType::BookmarkToBonsaiHgMapping.index() == 2);
        assert(EdgeType::BonsaiChangesetToFileContent.index() == 3);
        assert(EdgeType::BonsaiChangesetToBonsaiParent.index() == 4);
        assert(EdgeType::BonsaiChangesetToBonsaiHgMapping.index() == 5);
        assert(EdgeType::BonsaiHgMappingToHgChangeset.index() == 6);
        assert(EdgeType::HgBonsaiMappingToBonsaiChangeset.index() == 7);
        assert(EdgeType::HgChangesetToHgParent.index() == 8);
        assert(EdgeType::HgChangesetToHgManifest.index() == 9);
        assert(EdgeType::HgManifestToHgFileEnvelope.index() == 10);
        assert(EdgeType::HgManifestToHgFileNode.index() == 11);
        assert(EdgeType::HgManifestToChildHgManifest.index() == 12);
        assert(EdgeType::HgFileEnvelopeToFileContent.index() == 13);
        assert(EdgeType::HgLinkNodeToHgBonsaiMapping.index() == 14);
        assert(EdgeType::HgLinkNodeToHgChangeset.index() == 15);
        assert(EdgeType::HgFileNodeToHgParentFileNode.index() == 16);
        assert(EdgeType::HgFileNodeToHgCopyfromFileNode.index() == 17);
        assert(EdgeType::FileContentToFileContentMetadata.index() == 18);
        assert(EdgeType::FileContentMetadataToSha1Alias.index() == 19);
        assert(EdgeType::FileContentMetadataToSha256Alias.index() == 20);
        assert(EdgeType::FileContentMetadataToGitSha1Alias.index() == 21);
        assert(EdgeType::AliasContentMappingToFileContent.index() == 22);
    }
}

} // verus!

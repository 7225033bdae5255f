//! Nodes: what a walk visits. A node is an identity, the key by which its
//! payload is fetched, and nothing more.

use vstd::prelude::*;
use vstd::string::StringSliceAdditionalSpecFns;
use crate::bytes::{fnv1a, fnv1a_hash, le_word, opt_str_same, opt_text, str_same};
use crate::graph::NodeType;
use crate::ids::{Alias, AliasId, ChangesetId, ContentId, HgChangesetId, HgFileNodeId, HgManifestId};

verus! {

/// The name of a bookmark.
pub type BookmarkName = String;

/// A path in the repository, its elements joined by `/`.
pub type MPath = String;

/// The key by which an item is looked up: the variant says what kind of
/// lookup, the payload is the key.
#[derive(Clone, Debug, PartialEq, Eq, Hash)]
pub enum Node {
    // Bonsai
    Bookmark(BookmarkName),
    BonsaiChangeset(ChangesetId),
    BonsaiHgMapping(ChangesetId),
    // Hg
    HgBonsaiMapping(HgChangesetId),
    HgChangeset(HgChangesetId),
    HgManifest(Option<MPath>, HgManifestId),
    HgFileEnvelope(HgFileNodeId),
    HgFileNode(Option<MPath>, HgFileNodeId),
    // Content
    FileContent(ContentId),
    FileContentMetadata(ContentId),
    AliasContentMapping(Alias),
}

/// What a [`Node`] is in contracts: texts as sequences of characters,
/// hashes as sequences of bytes. Two nodes are the same node exactly when
/// their identities are equal.
pub enum NodeId {
    Bookmark(Seq<char>),
    BonsaiChangeset(Seq<u8>),
    BonsaiHgMapping(Seq<u8>),
    HgBonsaiMapping(Seq<u8>),
    HgChangeset(Seq<u8>),
    HgManifest(Option<Seq<char>>, Seq<u8>),
    HgFileEnvelope(Seq<u8>),
    HgFileNode(Option<Seq<char>>, Seq<u8>),
    FileContent(Seq<u8>),
    FileContentMetadata(Seq<u8>),
    AliasContentMapping(AliasId),
}

impl NodeId {
    /// The kind of the node.
    pub open spec fn kind(self) -> NodeType {
        match self {
            NodeId::Bookmark(_) => NodeType::Bookmark,
            NodeId::BonsaiChangeset(_) => NodeType::BonsaiChangeset,
            NodeId::BonsaiHgMapping(_) => NodeType::BonsaiHgMapping,
            NodeId::HgBonsaiMapping(_) => NodeType::HgBonsaiMapping,
            NodeId::HgChangeset(_) => NodeType::HgChangeset,
            NodeId::HgManifest(_, _) => NodeType::HgManifest,
            NodeId::HgFileEnvelope(_) => NodeType::HgFileEnvelope,
            NodeId::HgFileNode(_, _) => NodeType::HgFileNode,
            NodeId::FileContent(_) => NodeType::FileContent,
            NodeId::FileContentMetadata(_) => NodeType::FileContentMetadata,
            NodeId::AliasContentMapping(_) => NodeType::AliasContentMapping,
        }
    }

    /// The repository path that the node carries. Only manifests and file
    /// nodes carry one, and the root manifest carries none.
    pub open spec fn path(self) -> Option<Seq<char>> {
        match self {
            NodeId::HgManifest(path, _) => path,
            NodeId::HgFileNode(path, _) => path,
            _ => None,
        }
    }

    /// The number that sampling goes by. For a node keyed by a hash it is
    /// the hash's leading eight bytes, read little-endian; for a bookmark,
    /// the FNV-1a hash of the name's UTF-8 bytes.
    pub open spec fn fingerprint(self) -> int {
        match self {
            NodeId::Bookmark(name) => fnv1a(vstd::utf8::encode_utf8(name)) as int,
            NodeId::BonsaiChangeset(id) => le_word(id),
            NodeId::BonsaiHgMapping(id) => le_word(id),
            NodeId::HgBonsaiMapping(id) => le_word(id),
            NodeId::HgChangeset(id) => le_word(id),
            NodeId::HgManifest(_, id) => le_word(id),
            NodeId::HgFileEnvelope(id) => le_word(id),
            NodeId::HgFileNode(_, id) => le_word(id),
            NodeId::FileContent(id) => le_word(id),
            NodeId::FileContentMetadata(id) => le_word(id),
            NodeId::AliasContentMapping(alias) => le_word(alias.bytes()),
        }
    }
}

impl View for Node {
    type V = NodeId;

    open spec fn view(&self) -> NodeId {
        match *self {
            Node::Bookmark(name) => NodeId::Bookmark(name@),
            Node::BonsaiChangeset(id) => NodeId::BonsaiChangeset(id@),
            Node::BonsaiHgMapping(id) => NodeId::BonsaiHgMapping(id@),
            Node::HgBonsaiMapping(id) => NodeId::HgBonsaiMapping(id@),
            Node::HgChangeset(id) => NodeId::HgChangeset(id@),
            Node::HgManifest(path, id) => NodeId::HgManifest(opt_text(path), id@),
            Node::HgFileEnvelope(id) => NodeId::HgFileEnvelope(id@),
            Node::HgFileNode(path, id) => NodeId::HgFileNode(opt_text(path), id@),
            Node::FileContent(id) => NodeId::FileContent(id@),
            Node::FileContentMetadata(id) => NodeId::FileContentMetadata(id@),
            Node::AliasContentMapping(alias) => NodeId::AliasContentMapping(alias@),
        }
    }
}

impl Node {
    /// The kind of the node.
    pub fn get_type(&self) -> (kind: NodeType)
        ensures
            kind == self@.kind(),
    {
        match self {
            // Bonsai
            Node::Bookmark(_) => NodeType::Bookmark,
            Node::BonsaiChangeset(_) => NodeType::BonsaiChangeset,
            Node::BonsaiHgMapping(_) => NodeType::BonsaiHgMapping,
            // Hg
            Node::HgBonsaiMapping(_) => NodeType::HgBonsaiMapping,
            Node::HgChangeset(_) => NodeType::HgChangeset,
            Node::HgManifest(_, _) => NodeType::HgManifest,
            Node::HgFileEnvelope(_) => NodeType::HgFileEnvelope,
            Node::HgFileNode(_, _) => NodeType::HgFileNode,
            // Content
            Node::FileContent(_) => NodeType::FileContent,
            Node::FileContentMetadata(_) => NodeType::FileContentMetadata,
            Node::AliasContentMapping(_) => NodeType::AliasContentMapping,
        }
    }

    /// Whether both are the same node: the same kind of lookup with the
    /// same key.
    pub fn same(&self, other: &Node) -> (same: bool)
        ensures
            same == (self@ == other@),
    {
        match (self, other) {
            (Node::Bookmark(a), Node::Bookmark(b)) => str_same(a.as_str(), b.as_str()),
            (Node::BonsaiChangeset(a), Node::BonsaiChangeset(b)) => a.same(b),
            (Node::BonsaiHgMapping(a), Node::BonsaiHgMapping(b)) => a.same(b),
            (Node::HgBonsaiMapping(a), Node::HgBonsaiMapping(b)) => a.same(b),
            (Node::HgChangeset(a), Node::HgChangeset(b)) => a.same(b),
            (Node::HgManifest(p, a), Node::HgManifest(q, b)) => a.same(b) && opt_str_same(p, q),
            (Node::HgFileEnvelope(a), Node::HgFileEnvelope(b)) => a.same(b),
            (Node::HgFileNode(p, a), Node::HgFileNode(q, b)) => a.same(b) && opt_str_same(p, q),
            (Node::FileContent(a), Node::FileContent(b)) => a.same(b),
            (Node::FileContentMetadata(a), Node::FileContentMetadata(b)) => a.same(b),
            (Node::AliasContentMapping(a), Node::AliasContentMapping(b)) => a.same(b),
            _ => false,
        }
    }

    /// A second value for the same node.
    pub fn duplicate(&self) -> (copy: Node)
        ensures
            copy@ == self@,
    {
        match self {
            Node::Bookmark(name) => Node::Bookmark(name.clone()),
            Node::BonsaiChangeset(id) => Node::BonsaiChangeset(*id),
            Node::BonsaiHgMapping(id) => Node::BonsaiHgMapping(*id),
            Node::HgBonsaiMapping(id) => Node::HgBonsaiMapping(*id),
            Node::HgChangeset(id) => Node::HgChangeset(*id),
            Node::HgManifest(path, id) => Node::HgManifest(path.clone(), *id),
            Node::HgFileEnvelope(id) => Node::HgFileEnvelope(*id),
            Node::HgFileNode(path, id) => Node::HgFileNode(path.clone(), *id),
            Node::FileContent(id) => Node::FileContent(*id),
            Node::FileContentMetadata(id) => Node::FileContentMetadata(*id),
            Node::AliasContentMapping(alias) => Node::AliasContentMapping(*alias),
        }
    }

    /// The repository path that the node carries, if it carries one.
    pub fn path(&self) -> (path: Option<&str>)
        ensures
            match path {
                Some(p) => self@.path() == Some(p@),
                None => self@.path() is None,
            },
    {
        match self {
            Node::HgManifest(path, _) => match path {
                Some(p) => Some(p.as_str()),
                None => None,
            },
            Node::HgFileNode(path, _) => match path {
                Some(p) => Some(p.as_str()),
                None => None,
            },
            _ => None,
        }
    }

    /// The number that sampling goes by: a function of the node's identity
    /// alone.
    pub fn sampling_fingerprint(&self) -> (fp: u64)
        ensures
            fp as int == self@.fingerprint(),
    {
        match self {
            Node::Bookmark(name) => fnv1a_hash(name.as_str().as_bytes()),
            Node::BonsaiChangeset(id) => id.sampling_fingerprint(),
            Node::BonsaiHgMapping(id) => id.sampling_fingerprint(),
            Node::HgBonsaiMapping(id) => id.sampling_fingerprint(),
            Node::HgChangeset(id) => id.sampling_fingerprint(),
            Node::HgManifest(_, id) => id.sampling_fingerprint(),
            Node::HgFileEnvelope(id) => id.sampling_fingerprint(),
            Node::HgFileNode(_, id) => id.sampling_fingerprint(),
            Node::FileContent(id) => id.sampling_fingerprint(),
            Node::FileContentMetadata(id) => id.sampling_fingerprint(),
            Node::AliasContentMapping(alias) => alias.sampling_fingerprint(),
        }
    }
}

} // verus!

//! The schema of the graph: the kinds of node, the kinds of edge, and for
//! each edge the kind it leaves and the kind it reaches.
//!
//! The schema is data. The walk consults it and never dispatches on types of
//! its own, so a kind is switched on or off without touching the traversal.

use vstd::prelude::*;
use crate::bytes::str_same;
use crate::error::{ConfigError, ConfigFault};

verus! {

/// The kinds of node.
#[derive(Clone, Copy, Debug, PartialEq, Eq, Hash, Structural)]
pub enum NodeType {
    // Bonsai
    Bookmark,
    BonsaiChangeset,
    BonsaiHgMapping,
    // Hg
    HgBonsaiMapping,
    HgChangeset,
    HgManifest,
    HgFileEnvelope,
    HgFileNode,
    // Content
    FileContent,
    FileContentMetadata,
    AliasContentMapping,
}

/// How many kinds of node there are.
pub const NODE_TYPE_COUNT: usize = 11;

/// The node kind that `name` spells, if it spells one.
pub open spec fn node_type_named(name: Seq<char>) -> Option<NodeType> {
    if name == "Bookmark"@ {
        Some(NodeType::Bookmark)
    } else if name == "BonsaiChangeset"@ {
        Some(NodeType::BonsaiChangeset)
    } else if name == "BonsaiHgMapping"@ {
        Some(NodeType::BonsaiHgMapping)
    } else if name == "HgBonsaiMapping"@ {
        Some(NodeType::HgBonsaiMapping)
    } else if name == "HgChangeset"@ {
        Some(NodeType::HgChangeset)
    } else if name == "HgManifest"@ {
        Some(NodeType::HgManifest)
    } else if name == "HgFileEnvelope"@ {
        Some(NodeType::HgFileEnvelope)
    } else if name == "HgFileNode"@ {
        Some(NodeType::HgFileNode)
    } else if name == "FileContent"@ {
        Some(NodeType::FileContent)
    } else if name == "FileContentMetadata"@ {
        Some(NodeType::FileContentMetadata)
    } else if name == "AliasContentMapping"@ {
        Some(NodeType::AliasContentMapping)
    } else {
        None
    }
}

impl NodeType {
    /// The position of the kind in the declaration, from 0.
    pub open spec fn index(self) -> int {
        match self {
            NodeType::Bookmark => 0,
            NodeType::BonsaiChangeset => 1,
            NodeType::BonsaiHgMapping => 2,
            NodeType::HgBonsaiMapping => 3,
            NodeType::HgChangeset => 4,
            NodeType::HgManifest => 5,
            NodeType::HgFileEnvelope => 6,
            NodeType::HgFileNode => 7,
            NodeType::FileContent => 8,
            NodeType::FileContentMetadata => 9,
            NodeType::AliasContentMapping => 10,
        }
    }

    /// The name of the kind, as configuration spells it.
    pub open spec fn spec_name(self) -> Seq<char> {
        match self {
            NodeType::Bookmark => "Bookmark"@,
            NodeType::BonsaiChangeset => "BonsaiChangeset"@,
            NodeType::BonsaiHgMapping => "BonsaiHgMapping"@,
            NodeType::HgBonsaiMapping => "HgBonsaiMapping"@,
            NodeType::HgChangeset => "HgChangeset"@,
            NodeType::HgManifest => "HgManifest"@,
            NodeType::HgFileEnvelope => "HgFileEnvelope"@,
            NodeType::HgFileNode => "HgFileNode"@,
            NodeType::FileContent => "FileContent"@,
            NodeType::FileContentMetadata => "FileContentMetadata"@,
            NodeType::AliasContentMapping => "AliasContentMapping"@,
        }
    }

    /// The position of the kind in the declaration, from 0.
    pub fn ordinal(&self) -> (i: usize)
        ensures
            i == self.index(),
            i < NODE_TYPE_COUNT,
    {
        match self {
            NodeType::Bookmark => 0,
            NodeType::BonsaiChangeset => 1,
            NodeType::BonsaiHgMapping => 2,
            NodeType::HgBonsaiMapping => 3,
            NodeType::HgChangeset => 4,
            NodeType::HgManifest => 5,
            NodeType::HgFileEnvelope => 6,
            NodeType::HgFileNode => 7,
            NodeType::FileContent => 8,
            NodeType::FileContentMetadata => 9,
            NodeType::AliasContentMapping => 10,
        }
    }

    /// The kind at position `i` of the declaration.
    pub fn from_ordinal(i: usize) -> (kind: Option<NodeType>)
        ensures
            kind is Some <==> i < NODE_TYPE_COUNT,
            kind matches Some(k) ==> k.index() == i,
    {
        match i {
            0 => Some(NodeType::Bookmark),
            1 => Some(NodeType::BonsaiChangeset),
            2 => Some(NodeType::BonsaiHgMapping),
            3 => Some(NodeType::HgBonsaiMapping),
            4 => Some(NodeType::HgChangeset),
            5 => Some(NodeType::HgManifest),
            6 => Some(NodeType::HgFileEnvelope),
            7 => Some(NodeType::HgFileNode),
            8 => Some(NodeType::FileContent),
            9 => Some(NodeType::FileContentMetadata),
            10 => Some(NodeType::AliasContentMapping),
            _ => None,
        }
    }

    /// The name of the kind, as configuration spells it.
    pub fn name(&self) -> (name: &'static str)
        ensures
            name@ == self.spec_name(),
    {
        match self {
            NodeType::Bookmark => "Bookmark",
            NodeType::BonsaiChangeset => "BonsaiChangeset",
            NodeType::BonsaiHgMapping => "BonsaiHgMapping",
            NodeType::HgBonsaiMapping => "HgBonsaiMapping",
            NodeType::HgChangeset => "HgChangeset",
            NodeType::HgManifest => "HgManifest",
            NodeType::HgFileEnvelope => "HgFileEnvelope",
            NodeType::HgFileNode => "HgFileNode",
            NodeType::FileContent => "FileContent",
            NodeType::FileContentMetadata => "FileContentMetadata",
            NodeType::AliasContentMapping => "AliasContentMapping",
        }
    }

    /// The name of the kind, as an owned text.
    pub fn to_string(&self) -> (name: String)
        ensures
            name@ == self.spec_name(),
    {
        self.name().to_owned()
    }

    /// Reads a kind from its name. Any other text is an unknown name.
    pub fn from_str(s: &str) -> (parsed: Result<NodeType, ConfigError>)
        ensures
            match node_type_named(s@) {
                Some(kind) => parsed == Ok::<NodeType, ConfigError>(kind),
                None => parsed matches Err(e) && e@ == ConfigFault::UnknownNodeType(s@),
            },
    {
        if str_same(s, "Bookmark") {
            Ok(NodeType::Bookmark)
        } else if str_same(s, "BonsaiChangeset") {
            Ok(NodeType::BonsaiChangeset)
        } else if str_same(s, "BonsaiHgMapping") {
            Ok(NodeType::BonsaiHgMapping)
        } else if str_same(s, "HgBonsaiMapping") {
            Ok(NodeType::HgBonsaiMapping)
        } else if str_same(s, "HgChangeset") {
            Ok(NodeType::HgChangeset)
        } else if str_same(s, "HgManifest") {
            Ok(NodeType::HgManifest)
        } else if str_same(s, "HgFileEnvelope") {
            Ok(NodeType::HgFileEnvelope)
        } else if str_same(s, "HgFileNode") {
            Ok(NodeType::HgFileNode)
        } else if str_same(s, "FileContent") {
            Ok(NodeType::FileContent)
        } else if str_same(s, "FileContentMetadata") {
            Ok(NodeType::FileContentMetadata)
        } else if str_same(s, "AliasContentMapping") {
            Ok(NodeType::AliasContentMapping)
        } else {
            Err(ConfigError::UnknownNodeType(s.to_owned()))
        }
    }
}

/// The kinds of edge: the steps that a walk can take. A kind of node may be
/// reached by more than one kind of edge, so the set of steps can be narrowed
/// without narrowing the set of nodes.
#[derive(Clone, Copy, Debug, PartialEq, Eq, Hash, Structural)]
pub enum EdgeType {
    RootToBookmark,
    // Bonsai
    BookmarkToBonsaiChangeset,
    BookmarkToBonsaiHgMapping,
    BonsaiChangesetToFileContent,
    BonsaiChangesetToBonsaiParent,
    BonsaiChangesetToBonsaiHgMapping,
    BonsaiHgMappingToHgChangeset,
    // Hg
    HgBonsaiMappingToBonsaiChangeset,
    HgChangesetToHgParent,
    HgChangesetToHgManifest,
    HgManifestToHgFileEnvelope,
    HgManifestToHgFileNode,
    HgManifestToChildHgManifest,
    HgFileEnvelopeToFileContent,
    HgLinkNodeToHgBonsaiMapping,
    HgLinkNodeToHgChangeset,
    HgFileNodeToHgParentFileNode,
    HgFileNodeToHgCopyfromFileNode,
    // Content
    FileContentToFileContentMetadata,
    FileContentMetadataToSha1Alias,
    FileContentMetadataToSha256Alias,
    FileContentMetadataToGitSha1Alias,
    AliasContentMappingToFileContent,
}

/// How many kinds of edge there are.
pub const EDGE_TYPE_COUNT: usize = 23;

/// The edge kind that `name` spells, if it spells one.
pub open spec fn edge_type_named(name: Seq<char>) -> Option<EdgeType> {
    if name == "RootToBookmark"@ {
        Some(EdgeType::RootToBookmark)
    } else if name == "BookmarkToBonsaiHgMapping"@ {
        Some(EdgeType::BookmarkToBonsaiHgMapping)
    } else if name == "BookmarkToBonsaiChangeset"@ {
        Some(EdgeType::BookmarkToBonsaiChangeset)
    } else if name == "BonsaiChangesetToFileContent"@ {
        Some(EdgeType::BonsaiChangesetToFileContent)
    } else if name == "BonsaiChangesetToBonsaiParent"@ {
        Some(EdgeType::BonsaiChangesetToBonsaiParent)
    } else if name == "BonsaiChangesetToBonsaiHgMapping"@ {
        Some(EdgeType::BonsaiChangesetToBonsaiHgMapping)
    } else if name == "BonsaiHgMappingToHgChangeset"@ {
        Some(EdgeType::BonsaiHgMappingToHgChangeset)
    } else if name == "HgBonsaiMappingToBonsaiChangeset"@ {
        Some(EdgeType::HgBonsaiMappingToBonsaiChangeset)
    } else if name == "HgChangesetToHgParent"@ {
        Some(EdgeType::HgChangesetToHgParent)
    } else if name == "HgChangesetToHgManifest"@ {
        Some(EdgeType::HgChangesetToHgManifest)
    } else if name == "HgManifestToHgFileEnvelope"@ {
        Some(EdgeType::HgManifestToHgFileEnvelope)
    } else if name == "HgManifestToHgFileNode"@ {
        Some(EdgeType::HgManifestToHgFileNode)
    } else if name == "HgManifestToChildHgManifest"@ {
        Some(EdgeType::HgManifestToChildHgManifest)
    } else if name == "HgFileEnvelopeToFileContent"@ {
        Some(EdgeType::HgFileEnvelopeToFileContent)
    } else if name == "HgLinkNodeToHgBonsaiMapping"@ {
        Some(EdgeType::HgLinkNodeToHgBonsaiMapping)
    } else if name == "HgLinkNodeToHgChangeset"@ {
        Some(EdgeType::HgLinkNodeToHgChangeset)
    } else if name == "HgFileNodeToHgParentFileNode"@ {
        Some(EdgeType::HgFileNodeToHgParentFileNode)
    } else if name == "HgFileNodeToHgCopyfromFileNode"@ {
        Some(EdgeType::HgFileNodeToHgCopyfromFileNode)
    } else if name == "FileContentToFileContentMetadata"@ {
        Some(EdgeType::FileContentToFileContentMetadata)
    } else if name == "FileContentMetadataToSha1Alias"@ {
        Some(EdgeType::FileContentMetadataToSha1Alias)
    } else if name == "FileContentMetadataToSha256Alias"@ {
        Some(EdgeType::FileContentMetadataToSha256Alias)
    } else if name == "FileContentMetadataToGitSha1Alias"@ {
        Some(EdgeType::FileContentMetadataToGitSha1Alias)
    } else if name == "AliasContentMappingToFileContent"@ {
        Some(EdgeType::AliasContentMappingToFileContent)
    } else {
        None
    }
}

impl EdgeType {
    /// The position of the kind in the declaration, from 0.
    pub open spec fn index(self) -> int {
        match self {
            EdgeType::RootToBookmark => 0,
            EdgeType::BookmarkToBonsaiChangeset => 1,
            EdgeType::BookmarkToBonsaiHgMapping => 2,
            EdgeType::BonsaiChangesetToFileContent => 3,
            EdgeType::BonsaiChangesetToBonsaiParent => 4,
            EdgeType::BonsaiChangesetToBonsaiHgMapping => 5,
            EdgeType::BonsaiHgMappingToHgChangeset => 6,
            EdgeType::HgBonsaiMappingToBonsaiChangeset => 7,
            EdgeType::HgChangesetToHgParent => 8,
            EdgeType::HgChangesetToHgManifest => 9,
            EdgeType::HgManifestToHgFileEnvelope => 10,
            EdgeType::HgManifestToHgFileNode => 11,
            EdgeType::HgManifestToChildHgManifest => 12,
            EdgeType::HgFileEnvelopeToFileContent => 13,
            EdgeType::HgLinkNodeToHgBonsaiMapping => 14,
            EdgeType::HgLinkNodeToHgChangeset => 15,
            EdgeType::HgFileNodeToHgParentFileNode => 16,
            EdgeType::HgFileNodeToHgCopyfromFileNode => 17,
            EdgeType::FileContentToFileContentMetadata => 18,
            EdgeType::FileContentMetadataToSha1Alias => 19,
            EdgeType::FileContentMetadataToSha256Alias => 20,
            EdgeType::FileContentMetadataToGitSha1Alias => 21,
            EdgeType::AliasContentMappingToFileContent => 22,
        }
    }

    /// The name of the kind.
    pub open spec fn spec_name(self) -> Seq<char> {
        match self {
            EdgeType::RootToBookmark => "RootToBookmark"@,
            EdgeType::BookmarkToBonsaiChangeset => "BookmarkToBonsaiChangeset"@,
            EdgeType::BookmarkToBonsaiHgMapping => "BookmarkToBonsaiHgMapping"@,
            EdgeType::BonsaiChangesetToFileContent => "BonsaiChangesetToFileContent"@,
            EdgeType::BonsaiChangesetToBonsaiParent => "BonsaiChangesetToBonsaiParent"@,
            EdgeType::BonsaiChangesetToBonsaiHgMapping => "BonsaiChangesetToBonsaiHgMapping"@,
            EdgeType::BonsaiHgMappingToHgChangeset => "BonsaiHgMappingToHgChangeset"@,
            EdgeType::HgBonsaiMappingToBonsaiChangeset => "HgBonsaiMappingToBonsaiChangeset"@,
            EdgeType::HgChangesetToHgParent => "HgChangesetToHgParent"@,
            EdgeType::HgChangesetToHgManifest => "HgChangesetToHgManifest"@,
            EdgeType::HgManifestToHgFileEnvelope => "HgManifestToHgFileEnvelope"@,
            EdgeType::HgManifestToHgFileNode => "HgManifestToHgFileNode"@,
            EdgeType::HgManifestToChildHgManifest => "HgManifestToChildHgManifest"@,
            EdgeType::HgFileEnvelopeToFileContent => "HgFileEnvelopeToFileContent"@,
            EdgeType::HgLinkNodeToHgBonsaiMapping => "HgLinkNodeToHgBonsaiMapping"@,
            EdgeType::HgLinkNodeToHgChangeset => "HgLinkNodeToHgChangeset"@,
            EdgeType::HgFileNodeToHgParentFileNode => "HgFileNodeToHgParentFileNode"@,
            EdgeType::HgFileNodeToHgCopyfromFileNode => "HgFileNodeToHgCopyfromFileNode"@,
            EdgeType::FileContentToFileContentMetadata => "FileContentToFileContentMetadata"@,
            EdgeType::FileContentMetadataToSha1Alias => "FileContentMetadataToSha1Alias"@,
            EdgeType::FileContentMetadataToSha256Alias => "FileContentMetadataToSha256Alias"@,
            EdgeType::FileContentMetadataToGitSha1Alias => "FileContentMetadataToGitSha1Alias"@,
            EdgeType::AliasContentMappingToFileContent => "AliasContentMappingToFileContent"@,
        }
    }

    /// The kind of node that the edge leaves; none for the edge that leads
    /// from outside the graph to a bookmark.
    pub open spec fn source(self) -> Option<NodeType> {
        match self {
            EdgeType::RootToBookmark => None,
            // Bonsai
            EdgeType::BookmarkToBonsaiChangeset => Some(NodeType::Bookmark),
            EdgeType::BookmarkToBonsaiHgMapping => Some(NodeType::Bookmark),
            EdgeType::BonsaiChangesetToFileContent => Some(NodeType::BonsaiChangeset),
            EdgeType::BonsaiChangesetToBonsaiParent => Some(NodeType::BonsaiChangeset),
            EdgeType::BonsaiChangesetToBonsaiHgMapping => Some(NodeType::BonsaiChangeset),
            EdgeType::BonsaiHgMappingToHgChangeset => Some(NodeType::BonsaiHgMapping),
            // Hg
            EdgeType::HgBonsaiMappingToBonsaiChangeset => Some(NodeType::HgBonsaiMapping),
            EdgeType::HgChangesetToHgParent => Some(NodeType::HgChangeset),
            EdgeType::HgChangesetToHgManifest => Some(NodeType::HgChangeset),
            EdgeType::HgManifestToHgFileEnvelope => Some(NodeType::HgManifest),
            EdgeType::HgManifestToHgFileNode => Some(NodeType::HgManifest),
            EdgeType::HgManifestToChildHgManifest => Some(NodeType::HgManifest),
            EdgeType::HgFileEnvelopeToFileContent => Some(NodeType::HgFileEnvelope),
            EdgeType::HgLinkNodeToHgBonsaiMapping => Some(NodeType::HgFileNode),
            EdgeType::HgLinkNodeToHgChangeset => Some(NodeType::HgFileNode),
            EdgeType::HgFileNodeToHgParentFileNode => Some(NodeType::HgFileNode),
            EdgeType::HgFileNodeToHgCopyfromFileNode => Some(NodeType::HgFileNode),
            // Content
            EdgeType::FileContentToFileContentMetadata => Some(NodeType::FileContent),
            EdgeType::FileContentMetadataToSha1Alias => Some(NodeType::FileContentMetadata),
            EdgeType::FileContentMetadataToSha256Alias => Some(NodeType::FileContentMetadata),
            EdgeType::FileContentMetadataToGitSha1Alias => Some(NodeType::FileContentMetadata),
            EdgeType::AliasContentMappingToFileContent => Some(NodeType::AliasContentMapping),
        }
    }

    /// The kind of node that the edge reaches.
    pub open spec fn target(self) -> NodeType {
        match self {
            EdgeType::RootToBookmark => NodeType::Bookmark,
            // Bonsai
            EdgeType::BookmarkToBonsaiChangeset => NodeType::BonsaiChangeset,
            EdgeType::BookmarkToBonsaiHgMapping => NodeType::BonsaiHgMapping,
            EdgeType::BonsaiChangesetToFileContent => NodeType::FileContent,
            EdgeType::BonsaiChangesetToBonsaiParent => NodeType::BonsaiChangeset,
            EdgeType::BonsaiChangesetToBonsaiHgMapping => NodeType::BonsaiHgMapping,
            EdgeType::BonsaiHgMappingToHgChangeset => NodeType::HgChangeset,
            // Hg
            EdgeType::HgBonsaiMappingToBonsaiChangeset => NodeType::BonsaiChangeset,
            EdgeType::HgChangesetToHgParent => NodeType::HgChangeset,
            EdgeType::HgChangesetToHgManifest => NodeType::HgManifest,
            EdgeType::HgManifestToHgFileEnvelope => NodeType::HgFileEnvelope,
            EdgeType::HgManifestToHgFileNode => NodeType::HgFileNode,
            EdgeType::HgManifestToChildHgManifest => NodeType::HgManifest,
            EdgeType::HgFileEnvelopeToFileContent => NodeType::FileContent,
            EdgeType::HgLinkNodeToHgBonsaiMapping => NodeType::HgBonsaiMapping,
            EdgeType::HgLinkNodeToHgChangeset => NodeType::HgChangeset,
            EdgeType::HgFileNodeToHgParentFileNode => NodeType::HgFileNode,
            EdgeType::HgFileNodeToHgCopyfromFileNode => NodeType::HgFileNode,
            // Content
            EdgeType::FileContentToFileContentMetadata => NodeType::FileContentMetadata,
            EdgeType::FileContentMetadataToSha1Alias => NodeType::AliasContentMapping,
            EdgeType::FileContentMetadataToSha256Alias => NodeType::AliasContentMapping,
            EdgeType::FileContentMetadataToGitSha1Alias => NodeType::AliasContentMapping,
            EdgeType::AliasContentMappingToFileContent => NodeType::FileContent,
        }
    }

    /// The kind of node that the edge leaves; none for the edge that leads
    /// from outside the graph to a bookmark.
    pub fn incoming_type(&self) -> (kind: Option<NodeType>)
        ensures
            kind == self.source(),
            kind is None <==> *self == EdgeType::RootToBookmark,
    {
        match self {
            EdgeType::RootToBookmark => None,
            // Bonsai
            EdgeType::BookmarkToBonsaiChangeset => Some(NodeType::Bookmark),
            EdgeType::BookmarkToBonsaiHgMapping => Some(NodeType::Bookmark),
            EdgeType::BonsaiChangesetToFileContent => Some(NodeType::BonsaiChangeset),
            EdgeType::BonsaiChangesetToBonsaiParent => Some(NodeType::BonsaiChangeset),
            EdgeType::BonsaiChangesetToBonsaiHgMapping => Some(NodeType::BonsaiChangeset),
            EdgeType::BonsaiHgMappingToHgChangeset => Some(NodeType::BonsaiHgMapping),
            // Hg
            EdgeType::HgBonsaiMappingToBonsaiChangeset => Some(NodeType::HgBonsaiMapping),
            EdgeType::HgChangesetToHgParent => Some(NodeType::HgChangeset),
            EdgeType::HgChangesetToHgManifest => Some(NodeType::HgChangeset),
            EdgeType::HgManifestToHgFileEnvelope => Some(NodeType::HgManifest),
            EdgeType::HgManifestToHgFileNode => Some(NodeType::HgManifest),
            EdgeType::HgManifestToChildHgManifest => Some(NodeType::HgManifest),
            EdgeType::HgFileEnvelopeToFileContent => Some(NodeType::HgFileEnvelope),
            EdgeType::HgLinkNodeToHgBonsaiMapping => Some(NodeType::HgFileNode),
            EdgeType::HgLinkNodeToHgChangeset => Some(NodeType::HgFileNode),
            EdgeType::HgFileNodeToHgParentFileNode => Some(NodeType::HgFileNode),
            EdgeType::HgFileNodeToHgCopyfromFileNode => Some(NodeType::HgFileNode),
            // Content
            EdgeType::FileContentToFileContentMetadata => Some(NodeType::FileContent),
            EdgeType::FileContentMetadataToSha1Alias => Some(NodeType::FileContentMetadata),
            EdgeType::FileContentMetadataToSha256Alias => Some(NodeType::FileContentMetadata),
            EdgeType::FileContentMetadataToGitSha1Alias => Some(NodeType::FileContentMetadata),
            EdgeType::AliasContentMappingToFileContent => Some(NodeType::AliasContentMapping),
        }
    }

    /// The kind of node that the edge reaches.
    pub fn outgoing_type(&self) -> (kind: NodeType)
        ensures
            kind == self.target(),
    {
        match self {
            EdgeType::RootToBookmark => NodeType::Bookmark,
            // Bonsai
            EdgeType::BookmarkToBonsaiChangeset => NodeType::BonsaiChangeset,
            EdgeType::BookmarkToBonsaiHgMapping => NodeType::BonsaiHgMapping,
            EdgeType::BonsaiChangesetToFileContent => NodeType::FileContent,
            EdgeType::BonsaiChangesetToBonsaiParent => NodeType::BonsaiChangeset,
            EdgeType::BonsaiChangesetToBonsaiHgMapping => NodeType::BonsaiHgMapping,
            EdgeType::BonsaiHgMappingToHgChangeset => NodeType::HgChangeset,
            // Hg
            EdgeType::HgBonsaiMappingToBonsaiChangeset => NodeType::BonsaiChangeset,
            EdgeType::HgChangesetToHgParent => NodeType::HgChangeset,
            EdgeType::HgChangesetToHgManifest => NodeType::HgManifest,
            EdgeType::HgManifestToHgFileEnvelope => NodeType::HgFileEnvelope,
            EdgeType::HgManifestToHgFileNode => NodeType::HgFileNode,
            EdgeType::HgManifestToChildHgManifest => NodeType::HgManifest,
            EdgeType::HgFileEnvelopeToFileContent => NodeType::FileContent,
            EdgeType::HgLinkNodeToHgBonsaiMapping => NodeType::HgBonsaiMapping,
            EdgeType::HgLinkNodeToHgChangeset => NodeType::HgChangeset,
            EdgeType::HgFileNodeToHgParentFileNode => NodeType::HgFileNode,
            EdgeType::HgFileNodeToHgCopyfromFileNode => NodeType::HgFileNode,
            // Content
            EdgeType::FileContentToFileContentMetadata => NodeType::FileContentMetadata,
            EdgeType::FileContentMetadataToSha1Alias => NodeType::AliasContentMapping,
            EdgeType::FileContentMetadataToSha256Alias => NodeType::AliasContentMapping,
            EdgeType::FileContentMetadataToGitSha1Alias => NodeType::AliasContentMapping,
            EdgeType::AliasContentMappingToFileContent => NodeType::FileContent,
        }
    }

    /// The position of the kind in the declaration, from 0.
    pub fn ordinal(&self) -> (i: usize)
        ensures
            i == self.index(),
            i < EDGE_TYPE_COUNT,
    {
        match self {
            EdgeType::RootToBookmark => 0,
            EdgeType::BookmarkToBonsaiChangeset => 1,
            EdgeType::BookmarkToBonsaiHgMapping => 2,
            EdgeType::BonsaiChangesetToFileContent => 3,
            EdgeType::BonsaiChangesetToBonsaiParent => 4,
            EdgeType::BonsaiChangesetToBonsaiHgMapping => 5,
            EdgeType::BonsaiHgMappingToHgChangeset => 6,
            EdgeType::HgBonsaiMappingToBonsaiChangeset => 7,
            EdgeType::HgChangesetToHgParent => 8,
            EdgeType::HgChangesetToHgManifest => 9,
            EdgeType::HgManifestToHgFileEnvelope => 10,
            EdgeType::HgManifestToHgFileNode => 11,
            EdgeType::HgManifestToChildHgManifest => 12,
            EdgeType::HgFileEnvelopeToFileContent => 13,
            EdgeType::HgLinkNodeToHgBonsaiMapping => 14,
            EdgeType::HgLinkNodeToHgChangeset => 15,
            EdgeType::HgFileNodeToHgParentFileNode => 16,
            EdgeType::HgFileNodeToHgCopyfromFileNode => 17,
            EdgeType::FileContentToFileContentMetadata => 18,
            EdgeType::FileContentMetadataToSha1Alias => 19,
            EdgeType::FileContentMetadataToSha256Alias => 20,
            EdgeType::FileContentMetadataToGitSha1Alias => 21,
            EdgeType::AliasContentMappingToFileContent => 22,
        }
    }

    /// The kind at position `i` of the declaration.
    pub fn from_ordinal(i: usize) -> (kind: Option<EdgeType>)
        ensures
            kind is Some <==> i < EDGE_TYPE_COUNT,
            kind matches Some(k) ==> k.index() == i,
    {
        match i {
            0 => Some(EdgeType::RootToBookmark),
            1 => Some(EdgeType::BookmarkToBonsaiChangeset),
            2 => Some(EdgeType::BookmarkToBonsaiHgMapping),
            3 => Some(EdgeType::BonsaiChangesetToFileContent),
            4 => Some(EdgeType::BonsaiChangesetToBonsaiParent),
            5 => Some(EdgeType::BonsaiChangesetToBonsaiHgMapping),
            6 => Some(EdgeType::BonsaiHgMappingToHgChangeset),
            7 => Some(EdgeType::HgBonsaiMappingToBonsaiChangeset),
            8 => Some(EdgeType::HgChangesetToHgParent),
            9 => Some(EdgeType::HgChangesetToHgManifest),
            10 => Some(EdgeType::HgManifestToHgFileEnvelope),
            11 => Some(EdgeType::HgManifestToHgFileNode),
            12 => Some(EdgeType::HgManifestToChildHgManifest),
            13 => Some(EdgeType::HgFileEnvelopeToFileContent),
            14 => Some(EdgeType::HgLinkNodeToHgBonsaiMapping),
            15 => Some(EdgeType::HgLinkNodeToHgChangeset),
            16 => Some(EdgeType::HgFileNodeToHgParentFileNode),
            17 => Some(EdgeType::HgFileNodeToHgCopyfromFileNode),
            18 => Some(EdgeType::FileContentToFileContentMetadata),
            19 => Some(EdgeType::FileContentMetadataToSha1Alias),
            20 => Some(EdgeType::FileContentMetadataToSha256Alias),
            21 => Some(EdgeType::FileContentMetadataToGitSha1Alias),
            22 => Some(EdgeType::AliasContentMappingToFileContent),
            _ => None,
        }
    }

    /// The name of the kind.
    pub fn name(&self) -> (name: &'static str)
        ensures
            name@ == self.spec_name(),
    {
        match self {
            EdgeType::RootToBookmark => "RootToBookmark",
            EdgeType::BookmarkToBonsaiChangeset => "BookmarkToBonsaiChangeset",
            EdgeType::BookmarkToBonsaiHgMapping => "BookmarkToBonsaiHgMapping",
            EdgeType::BonsaiChangesetToFileContent => "BonsaiChangesetToFileContent",
            EdgeType::BonsaiChangesetToBonsaiParent => "BonsaiChangesetToBonsaiParent",
            EdgeType::BonsaiChangesetToBonsaiHgMapping => "BonsaiChangesetToBonsaiHgMapping",
            EdgeType::BonsaiHgMappingToHgChangeset => "BonsaiHgMappingToHgChangeset",
            EdgeType::HgBonsaiMappingToBonsaiChangeset => "HgBonsaiMappingToBonsaiChangeset",
            EdgeType::HgChangesetToHgParent => "HgChangesetToHgParent",
            EdgeType::HgChangesetToHgManifest => "HgChangesetToHgManifest",
            EdgeType::HgManifestToHgFileEnvelope => "HgManifestToHgFileEnvelope",
            EdgeType::HgManifestToHgFileNode => "HgManifestToHgFileNode",
            EdgeType::HgManifestToChildHgManifest => "HgManifestToChildHgManifest",
            EdgeType::HgFileEnvelopeToFileContent => "HgFileEnvelopeToFileContent",
            EdgeType::HgLinkNodeToHgBonsaiMapping => "HgLinkNodeToHgBonsaiMapping",
            EdgeType::HgLinkNodeToHgChangeset => "HgLinkNodeToHgChangeset",
            EdgeType::HgFileNodeToHgParentFileNode => "HgFileNodeToHgParentFileNode",
            EdgeType::HgFileNodeToHgCopyfromFileNode => "HgFileNodeToHgCopyfromFileNode",
            EdgeType::FileContentToFileContentMetadata => "FileContentToFileContentMetadata",
            EdgeType::FileContentMetadataToSha1Alias => "FileContentMetadataToSha1Alias",
            EdgeType::FileContentMetadataToSha256Alias => "FileContentMetadataToSha256Alias",
            EdgeType::FileContentMetadataToGitSha1Alias => "FileContentMetadataToGitSha1Alias",
            EdgeType::AliasContentMappingToFileContent => "AliasContentMappingToFileContent",
        }
    }

    /// The name of the kind, as an owned text.
    pub fn to_string(&self) -> (name: String)
        ensures
            name@ == self.spec_name(),
    {
        self.name().to_owned()
    }

    /// Reads a kind from its name. Any other text is an unknown name.
    pub fn from_str(s: &str) -> (parsed: Result<EdgeType, ConfigError>)
        ensures
            match edge_type_named(s@) {
                Some(kind) => parsed == Ok::<EdgeType, ConfigError>(kind),
                None => parsed matches Err(e) && e@ == ConfigFault::UnknownEdgeType(s@),
            },
    {
        if str_same(s, "RootToBookmark") {
            Ok(EdgeType::RootToBookmark)
        } else if str_same(s, "BookmarkToBonsaiHgMapping") {
            Ok(EdgeType::BookmarkToBonsaiHgMapping)
        } else if str_same(s, "BookmarkToBonsaiChangeset") {
            Ok(EdgeType::BookmarkToBonsaiChangeset)
        } else if str_same(s, "BonsaiChangesetToFileContent") {
            Ok(EdgeType::BonsaiChangesetToFileContent)
        } else if str_same(s, "BonsaiChangesetToBonsaiParent") {
            Ok(EdgeType::BonsaiChangesetToBonsaiParent)
        } else if str_same(s, "BonsaiChangesetToBonsaiHgMapping") {
            Ok(EdgeType::BonsaiChangesetToBonsaiHgMapping)
        } else if str_same(s, "BonsaiHgMappingToHgChangeset") {
            Ok(EdgeType::BonsaiHgMappingToHgChangeset)
        } else if str_same(s, "HgBonsaiMappingToBonsaiChangeset") {
            Ok(EdgeType::HgBonsaiMappingToBonsaiChangeset)
        } else if str_same(s, "HgChangesetToHgParent") {
            Ok(EdgeType::HgChangesetToHgParent)
        } else if str_same(s, "HgChangesetToHgManifest") {
            Ok(EdgeType::HgChangesetToHgManifest)
        } else if str_same(s, "HgManifestToHgFileEnvelope") {
            Ok(EdgeType::HgManifestToHgFileEnvelope)
        } else if str_same(s, "HgManifestToHgFileNode") {
            Ok(EdgeType::HgManifestToHgFileNode)
        } else if str_same(s, "HgManifestToChildHgManifest") {
            Ok(EdgeType::HgManifestToChildHgManifest)
        } else if str_same(s, "HgFileEnvelopeToFileContent") {
            Ok(EdgeType::HgFileEnvelopeToFileContent)
        } else if str_same(s, "HgLinkNodeToHgBonsaiMapping") {
            Ok(EdgeType::HgLinkNodeToHgBonsaiMapping)
        } else if str_same(s, "HgLinkNodeToHgChangeset") {
            Ok(EdgeType::HgLinkNodeToHgChangeset)
        } else if str_same(s, "HgFileNodeToHgParentFileNode") {
            Ok(EdgeType::HgFileNodeToHgParentFileNode)
        } else if str_same(s, "HgFileNodeToHgCopyfromFileNode") {
            Ok(EdgeType::HgFileNodeToHgCopyfromFileNode)
        } else if str_same(s, "FileContentToFileContentMetadata") {
            Ok(EdgeType::FileContentToFileContentMetadata)
        } else if str_same(s, "FileContentMetadataToSha1Alias") {
            Ok(EdgeType::FileContentMetadataToSha1Alias)
        } else if str_same(s, "FileContentMetadataToSha256Alias") {
            Ok(EdgeType::FileContentMetadataToSha256Alias)
        } else if str_same(s, "FileContentMetadataToGitSha1Alias") {
            Ok(EdgeType::FileContentMetadataToGitSha1Alias)
        } else if str_same(s, "AliasContentMappingToFileContent") {
            Ok(EdgeType::AliasContentMappingToFileContent)
        } else {
            Err(ConfigError::UnknownEdgeType(s.to_owned()))
        }
    }
}

/// Every node kind is read back from its own name, and a name is read as
/// a kind only if it is that kind's name.
pub proof fn lemma_node_type_names(kind: NodeType, name: Seq<char>)
    ensures
        node_type_named(kind.spec_name()) == Some(kind),
        node_type_named(name) == Some(kind) <==> name == kind.spec_name(),
{
    reveal_strlit("Bookmark");
    reveal_strlit("BonsaiChangeset");
    reveal_strlit("BonsaiHgMapping");
    reveal_strlit("HgBonsaiMapping");
    reveal_strlit("HgChangeset");
    reveal_strlit("HgManifest");
    reveal_strlit("HgFileEnvelope");
    reveal_strlit("HgFileNode");
    reveal_strlit("FileContent");
    reveal_strlit("FileContentMetadata");
    reveal_strlit("AliasContentMapping");
    assert("Bookmark"@.len() == 8);
    assert("BonsaiChangeset"@.len() == 15);
    assert("BonsaiHgMapping"@.len() == 15);
    assert("HgBonsaiMapping"@.len() == 15);
    assert("HgChangeset"@.len() == 11);
    assert("HgManifest"@.len() == 10);
    assert("HgFileEnvelope"@.len() == 14);
    assert("HgFileNode"@.len() == 10);
    assert("FileContent"@.len() == 11);
    assert("FileContentMetadata"@.len() == 19);
    assert("AliasContentMapping"@.len() == 19);
    assert("BonsaiChangeset"@[6] == 'C');
    assert("BonsaiHgMapping"@[6] == 'H');
    assert("HgBonsaiMapping"@[6] == 'a');
    assert("HgChangeset"@[0] == 'H');
    assert("FileContent"@[0] == 'F');
    assert("HgManifest"@[2] == 'M');
    assert("HgFileNode"@[2] == 'F');
    assert("FileContentMetadata"@[0] == 'F');
    assert("AliasContentMapping"@[0] == 'A');
}

/// Every edge kind is read back from its own name, and a name is read as
/// a kind only if it is that kind's name.
pub proof fn lemma_edge_type_names(kind: EdgeType, name: Seq<char>)
    ensures
        edge_type_named(kind.spec_name()) == Some(kind),
        edge_type_named(name) == Some(kind) <==> name == kind.spec_name(),
{
    reveal_strlit("RootToBookmark");
    reveal_strlit("BookmarkToBonsaiChangeset");
    reveal_strlit("BookmarkToBonsaiHgMapping");
    reveal_strlit("BonsaiChangesetToFileContent");
    reveal_strlit("BonsaiChangesetToBonsaiParent");
    reveal_strlit("BonsaiChangesetToBonsaiHgMapping");
    reveal_strlit("BonsaiHgMappingToHgChangeset");
    reveal_strlit("HgBonsaiMappingToBonsaiChangeset");
    reveal_strlit("HgChangesetToHgParent");
    reveal_strlit("HgChangesetToHgManifest");
    reveal_strlit("HgManifestToHgFileEnvelope");
    reveal_strlit("HgManifestToHgFileNode");
    reveal_strlit("HgManifestToChildHgManifest");
    reveal_strlit("HgFileEnvelopeToFileContent");
    reveal_strlit("HgLinkNodeToHgBonsaiMapping");
    reveal_strlit("HgLinkNodeToHgChangeset");
    reveal_strlit("HgFileNodeToHgParentFileNode");
    reveal_strlit("HgFileNodeToHgCopyfromFileNode");
    reveal_strlit("FileContentToFileContentMetadata");
    reveal_strlit("FileContentMetadataToSha1Alias");
    reveal_strlit("FileContentMetadataToSha256Alias");
    reveal_strlit("FileContentMetadataToGitSha1Alias");
    reveal_strlit("AliasContentMappingToFileContent");
    assert("RootToBookmark"@.len() == 14);
    assert("BookmarkToBonsaiChangeset"@.len() == 25);
    assert("BookmarkToBonsaiHgMapping"@.len() == 25);
    assert("BonsaiChangesetToFileContent"@.len() == 28);
    assert("BonsaiChangesetToBonsaiParent"@.len() == 29);
    assert("BonsaiChangesetToBonsaiHgMapping"@.len() == 32);
    assert("BonsaiHgMappingToHgChangeset"@.len() == 28);
    assert("HgBonsaiMappingToBonsaiChangeset"@.len() == 32);
    assert("HgChangesetToHgParent"@.len() == 21);
    assert("HgChangesetToHgManifest"@.len() == 23);
    assert("HgManifestToHgFileEnvelope"@.len() == 26);
    assert("HgManifestToHgFileNode"@.len() == 22);
    assert("HgManifestToChildHgManifest"@.len() == 27);
    assert("HgFileEnvelopeToFileContent"@.len() == 27);
    assert("HgLinkNodeToHgBonsaiMapping"@.len() == 27);
    assert("HgLinkNodeToHgChangeset"@.len() == 23);
    assert("HgFileNodeToHgParentFileNode"@.len() == 28);
    assert("HgFileNodeToHgCopyfromFileNode"@.len() == 30);
    assert("FileContentToFileContentMetadata"@.len() == 32);
    assert("FileContentMetadataToSha1Alias"@.len() == 30);
    assert("FileContentMetadataToSha256Alias"@.len() == 32);
    assert("FileContentMetadataToGitSha1Alias"@.len() == 33);
    assert("AliasContentMappingToFileContent"@.len() == 32);
    assert("BookmarkToBonsaiChangeset"@[16] == 'C');
    assert("BookmarkToBonsaiHgMapping"@[16] == 'H');
    assert("BonsaiChangesetToFileContent"@[6] == 'C');
    assert("BonsaiHgMappingToHgChangeset"@[6] == 'H');
    assert("HgFileNodeToHgParentFileNode"@[6] == 'N');
    assert("BonsaiChangesetToBonsaiHgMapping"@[0] == 'B');
    assert("BonsaiChangesetToBonsaiHgMapping"@[11] == 'e');
    assert("HgBonsaiMappingToBonsaiChangeset"@[0] == 'H');
    assert("HgBonsaiMappingToBonsaiChangeset"@[11] == 'p');
    assert("FileContentToFileContentMetadata"@[0] == 'F');
    assert("FileContentToFileContentMetadata"@[11] == 'T');
    assert("FileContentMetadataToSha256Alias"@[0] == 'F');
    assert("FileContentMetadataToSha256Alias"@[11] == 'M');
    assert("AliasContentMappingToFileContent"@[0] == 'A');
    assert("AliasContentMappingToFileContent"@[11] == 't');
    assert("HgChangesetToHgManifest"@[2] == 'C');
    assert("HgLinkNodeToHgChangeset"@[2] == 'L');
    assert("HgManifestToChildHgManifest"@[2] == 'M');
    assert("HgFileEnvelopeToFileContent"@[2] == 'F');
    assert("HgLinkNodeToHgBonsaiMapping"@[2] == 'L');
    assert("HgFileNodeToHgCopyfromFileNode"@[0] == 'H');
    assert("FileContentMetadataToSha1Alias"@[0] == 'F');
}

/// The edge into a bookmark from outside the graph is the only edge without
/// a source, and every edge that has a source leaves exactly that kind.
pub proof fn lemma_one_root_edge(edge: EdgeType)
    ensures
        edge.source() is None <==> edge == EdgeType::RootToBookmark,
        EdgeType::RootToBookmark.target() == NodeType::Bookmark,
{
}

} // verus!

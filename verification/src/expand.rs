//! Expansion: from a node and its payload to the edges that leave it.
//!
//! Each kind of node has one rule. A rule reads the payload and names, for
//! each reference that it finds, the kind of edge and the node at its far
//! end. Which of those edges a walk then follows is for the walk to say.

use vstd::prelude::*;
use vstd::string::StringExecFns;
use crate::bytes::opt_text;
use crate::graph::{EdgeType, NodeType};
use crate::ids::{Alias, AliasId, ChangesetId, HgChangesetId, HgFileNodeId};
use crate::node::{MPath, Node, NodeId};
use crate::payload::{
    BonsaiChangeset,
    ContentMetadata,
    FilenodeInfo,
    HgBlobChangeset,
    HgEntryId,
    HgManifest,
    ManifestEntry,
    NodeData,
};

verus! {

/// An edge that leaves a node: its kind, and the node at its far end.
#[derive(Clone, Debug, PartialEq, Eq)]
pub struct OutgoingEdge {
    pub label: EdgeType,
    pub target: Node,
}

/// What an [`OutgoingEdge`] is in contracts.
pub struct Hop {
    pub label: EdgeType,
    pub target: NodeId,
}

impl View for OutgoingEdge {
    type V = Hop;

    open spec fn view(&self) -> Hop {
        Hop { label: self.label, target: self.target@ }
    }
}

impl Hop {
    /// Whether the edge leaves a node of kind `from` and ends at a node of
    /// the kind that the schema declares for it.
    pub open spec fn fits(self, from: NodeType) -> bool {
        self.label.source() == Some(from) && self.target.kind() == self.label.target()
    }
}

/// The edges of a list, as contracts see them.
pub open spec fn hops_of(edges: Seq<OutgoingEdge>) -> Seq<Hop> {
    Seq::new(edges.len(), |i: int| edges[i]@)
}

/// Why the edges that leave a node could not be worked out.
#[derive(Clone, Copy, Debug, PartialEq, Eq, Structural)]
pub enum ExpansionError {
    /// The payload is of another kind than the node.
    PayloadMismatch,
    /// A manifest has an entry without a name.
    InvalidManifest,
}

/// The kind of node that a payload belongs to.
pub open spec fn payload_kind(data: NodeData) -> NodeType {
    match data {
        NodeData::Bookmark(_) => NodeType::Bookmark,
        NodeData::BonsaiChangeset(_) => NodeType::BonsaiChangeset,
        NodeData::BonsaiHgMapping(_) => NodeType::BonsaiHgMapping,
        NodeData::HgBonsaiMapping(_) => NodeType::HgBonsaiMapping,
        NodeData::HgChangeset(_) => NodeType::HgChangeset,
        NodeData::HgManifest(_) => NodeType::HgManifest,
        NodeData::HgFileEnvelope(_) => NodeType::HgFileEnvelope,
        NodeData::HgFileNode(_) => NodeType::HgFileNode,
        NodeData::FileContent(_) => NodeType::FileContent,
        NodeData::FileContentMetadata(_) => NodeType::FileContentMetadata,
        NodeData::AliasContentMapping(_) => NodeType::AliasContentMapping,
    }
}

/// The path of an entry called `name` in the directory at `parent`; the
/// root directory has no path.
pub open spec fn join_path(parent: Option<Seq<char>>, name: Seq<char>) -> Seq<char> {
    match parent {
        Some(dir) => dir + "/"@ + name,
        None => name,
    }
}

/// One edge to each parent of a commit in the content-addressed scheme.
pub open spec fn bonsai_parent_hops(parents: Seq<ChangesetId>) -> Seq<Hop> {
    Seq::new(
        parents.len(),
        |i: int|
            Hop {
                label: EdgeType::BonsaiChangesetToBonsaiParent,
                target: NodeId::BonsaiChangeset(parents[i]@),
            },
    )
}

/// One edge to the content of each file that a commit changes.
pub open spec fn file_change_hops(changes: Seq<crate::ids::ContentId>) -> Seq<Hop> {
    Seq::new(
        changes.len(),
        |i: int|
            Hop {
                label: EdgeType::BonsaiChangesetToFileContent,
                target: NodeId::FileContent(changes[i]@),
            },
    )
}

/// One edge to each parent of a commit in the Mercurial scheme.
pub open spec fn hg_parent_hops(parents: Seq<HgChangesetId>) -> Seq<Hop> {
    Seq::new(
        parents.len(),
        |i: int|
            Hop { label: EdgeType::HgChangesetToHgParent, target: NodeId::HgChangeset(parents[i]@) },
    )
}

/// The edges that one manifest entry gives: to a file's envelope and to its
/// history, or to the manifest of a subdirectory.
pub open spec fn entry_hops(parent: Option<Seq<char>>, entry: ManifestEntry) -> Seq<Hop> {
    let path = Some(join_path(parent, entry.name@));
    match entry.id {
        HgEntryId::File(id) => seq![
            Hop { label: EdgeType::HgManifestToHgFileEnvelope, target: NodeId::HgFileEnvelope(id@) },
            Hop { label: EdgeType::HgManifestToHgFileNode, target: NodeId::HgFileNode(path, id@) },
        ],
        HgEntryId::Manifest(id) => seq![
            Hop {
                label: EdgeType::HgManifestToChildHgManifest,
                target: NodeId::HgManifest(path, id@),
            },
        ],
    }
}

/// The edges that the entries of a manifest give, entry by entry.
pub open spec fn manifest_hops(parent: Option<Seq<char>>, entries: Seq<ManifestEntry>) -> Seq<Hop>
    decreases entries.len(),
{
    if entries.len() == 0 {
        Seq::empty()
    } else {
        manifest_hops(parent, entries.drop_last()) + entry_hops(parent, entries.last())
    }
}

/// Whether every entry of a manifest has a name.
pub open spec fn entries_named(entries: Seq<ManifestEntry>) -> bool {
    forall|i: int| 0 <= i < entries.len() ==> (#[trigger] entries[i]).name@.len() > 0
}

/// The edge to a parent revision of a file, if there is that parent.
pub open spec fn file_parent_hops(path: Option<Seq<char>>, parent: Option<HgFileNodeId>) -> Seq<
    Hop,
> {
    match parent {
        Some(id) => seq![
            Hop {
                label: EdgeType::HgFileNodeToHgParentFileNode,
                target: NodeId::HgFileNode(path, id@),
            },
        ],
        None => Seq::empty(),
    }
}

/// The edge to the revision that a file was copied from, if it was copied.
pub open spec fn copy_hops(copyfrom: Option<(MPath, HgFileNodeId)>) -> Seq<Hop> {
    match copyfrom {
        Some((path, id)) => seq![
            Hop {
                label: EdgeType::HgFileNodeToHgCopyfromFileNode,
                target: NodeId::HgFileNode(Some(path@), id@),
            },
        ],
        None => Seq::empty(),
    }
}

/// The edges that the history of a file revision gives: to the commit that
/// introduced it, by both of that commit's lookups, to its parents, and to
/// the revision it was copied from.
pub open spec fn file_node_hops(path: Option<Seq<char>>, info: FilenodeInfo) -> Seq<Hop> {
    seq![
        Hop { label: EdgeType::HgLinkNodeToHgChangeset, target: NodeId::HgChangeset(info.linknode@) },
        Hop {
            label: EdgeType::HgLinkNodeToHgBonsaiMapping,
            target: NodeId::HgBonsaiMapping(info.linknode@),
        },
    ] + file_parent_hops(path, info.p1) + file_parent_hops(path, info.p2) + copy_hops(info.copyfrom)
}

/// The edges to the aliases that a content's metadata lists.
pub open spec fn alias_hops(meta: ContentMetadata) -> Seq<Hop> {
    seq![
        Hop {
            label: EdgeType::FileContentMetadataToSha1Alias,
            target: NodeId::AliasContentMapping(AliasId::Sha1(meta.sha1@)),
        },
        Hop {
            label: EdgeType::FileContentMetadataToSha256Alias,
            target: NodeId::AliasContentMapping(AliasId::Sha256(meta.sha256@)),
        },
        Hop {
            label: EdgeType::FileContentMetadataToGitSha1Alias,
            target: NodeId::AliasContentMapping(AliasId::GitSha1(meta.git_sha1@)),
        },
    ]
}

/// The edges that leave `node`, given its payload, in the order in which
/// they are followed; or why there are none to be had.
pub open spec fn outgoing(node: NodeId, data: NodeData) -> Result<Seq<Hop>, ExpansionError> {
    match (node, data) {
        (NodeId::Bookmark(_), NodeData::Bookmark(target)) => Ok(
            seq![
                Hop {
                    label: EdgeType::BookmarkToBonsaiChangeset,
                    target: NodeId::BonsaiChangeset(target@),
                },
                Hop {
                    label: EdgeType::BookmarkToBonsaiHgMapping,
                    target: NodeId::BonsaiHgMapping(target@),
                },
            ],
        ),
        (NodeId::BonsaiChangeset(id), NodeData::BonsaiChangeset(commit)) => Ok(
            bonsai_parent_hops(commit.parents@) + seq![
                Hop {
                    label: EdgeType::BonsaiChangesetToBonsaiHgMapping,
                    target: NodeId::BonsaiHgMapping(id),
                },
            ] + file_change_hops(commit.file_changes@),
        ),
        (NodeId::BonsaiHgMapping(_), NodeData::BonsaiHgMapping(hg)) => Ok(
            seq![
                Hop { label: EdgeType::BonsaiHgMappingToHgChangeset, target: NodeId::HgChangeset(hg@) },
            ],
        ),
        (NodeId::HgBonsaiMapping(_), NodeData::HgBonsaiMapping(mapped)) => Ok(
            match mapped {
                Some(id) => seq![
                    Hop {
                        label: EdgeType::HgBonsaiMappingToBonsaiChangeset,
                        target: NodeId::BonsaiChangeset(id@),
                    },
                ],
                None => Seq::empty(),
            },
        ),
        (NodeId::HgChangeset(_), NodeData::HgChangeset(commit)) => Ok(
            seq![
                Hop {
                    label: EdgeType::HgChangesetToHgManifest,
                    target: NodeId::HgManifest(None, commit.manifestid@),
                },
            ] + hg_parent_hops(commit.parents@),
        ),
        (NodeId::HgManifest(path, _), NodeData::HgManifest(manifest)) => if entries_named(
            manifest.entries@,
        ) {
            Ok(manifest_hops(path, manifest.entries@))
        } else {
            Err(ExpansionError::InvalidManifest)
        },
        (NodeId::HgFileEnvelope(_), NodeData::HgFileEnvelope(envelope)) => Ok(
            seq![
                Hop {
                    label: EdgeType::HgFileEnvelopeToFileContent,
                    target: NodeId::FileContent(envelope.content_id@),
                },
            ],
        ),
        (NodeId::HgFileNode(path, _), NodeData::HgFileNode(history)) => Ok(
            match history {
                Some(info) => file_node_hops(path, info),
                None => Seq::empty(),
            },
        ),
        (NodeId::FileContent(id), NodeData::FileContent(_)) => Ok(
            seq![
                Hop {
                    label: EdgeType::FileContentToFileContentMetadata,
                    target: NodeId::FileContentMetadata(id),
                },
            ],
        ),
        (NodeId::FileContentMetadata(_), NodeData::FileContentMetadata(meta)) => Ok(
            alias_hops(meta),
        ),
        (NodeId::AliasContentMapping(_), NodeData::AliasContentMapping(content)) => Ok(
            seq![
                Hop {
                    label: EdgeType::AliasContentMappingToFileContent,
                    target: NodeId::FileContent(content@),
                },
            ],
        ),
        _ => Err(ExpansionError::PayloadMismatch),
    }
}

/// Adds one edge to the end of `edges`.
fn push_edge(edges: &mut Vec<OutgoingEdge>, label: EdgeType, target: Node)
    ensures
        hops_of(final(edges)@) == hops_of(old(edges)@).push(Hop { label, target: target@ }),
{
    edges.push(OutgoingEdge { label, target });
    assert(hops_of(edges@) =~= hops_of(old(edges)@).push(Hop { label, target: target@ }));
}

/// The path of an entry called `name` in the directory at `parent`.
fn child_path(parent: &Option<MPath>, name: &str) -> (path: MPath)
    ensures
        path@ == join_path(opt_text(*parent), name@),
{
    match parent {
        Some(dir) => dir.clone().concat("/").concat(name),
        None => name.to_owned(),
    }
}

/// A second value for the same optional path.
fn same_path(path: &Option<MPath>) -> (copy: Option<MPath>)
    ensures
        opt_text(copy) == opt_text(*path),
{
    match path {
        Some(p) => Some(p.clone()),
        None => None,
    }
}

/// Adds the edges to the parents of a commit in the content-addressed
/// scheme.
fn push_bonsai_parents(edges: &mut Vec<OutgoingEdge>, parents: &Vec<ChangesetId>)
    ensures
        hops_of(final(edges)@) == hops_of(old(edges)@) + bonsai_parent_hops(parents@),
{
    let mut i: usize = 0;
    assert(hops_of(edges@) =~= hops_of(old(edges)@) + bonsai_parent_hops(parents@.take(0)));
    while i < parents.len()
        invariant
            i <= parents@.len(),
            hops_of(edges@) == hops_of(old(edges)@) + bonsai_parent_hops(parents@.take(i as int)),
        decreases parents@.len() - i,
    {
        let ghost before = hops_of(edges@);
        push_edge(edges, EdgeType::BonsaiChangesetToBonsaiParent, Node::BonsaiChangeset(parents[i]));
        assert(hops_of(edges@) =~= hops_of(old(edges)@) + bonsai_parent_hops(
            parents@.take(i + 1),
        ));
        i += 1;
    }
    assert(parents@.take(i as int) =~= parents@);
}

/// Adds the edges to the content of the files that a commit changes.
fn push_file_changes(edges: &mut Vec<OutgoingEdge>, changes: &Vec<crate::ids::ContentId>)
    ensures
        hops_of(final(edges)@) == hops_of(old(edges)@) + file_change_hops(changes@),
{
    let mut i: usize = 0;
    assert(hops_of(edges@) =~= hops_of(old(edges)@) + file_change_hops(changes@.take(0)));
    while i < changes.len()
        invariant
            i <= changes@.len(),
            hops_of(edges@) == hops_of(old(edges)@) + file_change_hops(changes@.take(i as int)),
        decreases changes@.len() - i,
    {
        push_edge(edges, EdgeType::BonsaiChangesetToFileContent, Node::FileContent(changes[i]));
        assert(hops_of(edges@) =~= hops_of(old(edges)@) + file_change_hops(changes@.take(i + 1)));
        i += 1;
    }
    assert(changes@.take(i as int) =~= changes@);
}

/// Adds the edges to the parents of a commit in the Mercurial scheme.
fn push_hg_parents(edges: &mut Vec<OutgoingEdge>, parents: &Vec<HgChangesetId>)
    ensures
        hops_of(final(edges)@) == hops_of(old(edges)@) + hg_parent_hops(parents@),
{
    let mut i: usize = 0;
    assert(hops_of(edges@) =~= hops_of(old(edges)@) + hg_parent_hops(parents@.take(0)));
    while i < parents.len()
        invariant
            i <= parents@.len(),
            hops_of(edges@) == hops_of(old(edges)@) + hg_parent_hops(parents@.take(i as int)),
        decreases parents@.len() - i,
    {
        push_edge(edges, EdgeType::HgChangesetToHgParent, Node::HgChangeset(parents[i]));
        assert(hops_of(edges@) =~= hops_of(old(edges)@) + hg_parent_hops(parents@.take(i + 1)));
        i += 1;
    }
    assert(parents@.take(i as int) =~= parents@);
}

/// Adds the edges that one manifest entry gives.
fn push_entry(edges: &mut Vec<OutgoingEdge>, parent: &Option<MPath>, entry: &ManifestEntry)
    ensures
        hops_of(final(edges)@) == hops_of(old(edges)@) + entry_hops(opt_text(*parent), *entry),
{
    let path = child_path(parent, entry.name.as_str());
    match entry.id {
        HgEntryId::File(id) => {
            push_edge(edges, EdgeType::HgManifestToHgFileEnvelope, Node::HgFileEnvelope(id));
            push_edge(edges, EdgeType::HgManifestToHgFileNode, Node::HgFileNode(Some(path), id));
        },
        HgEntryId::Manifest(id) => {
            push_edge(edges, EdgeType::HgManifestToChildHgManifest, Node::HgManifest(Some(path), id));
        },
    }
    assert(hops_of(edges@) =~= hops_of(old(edges)@) + entry_hops(opt_text(*parent), *entry));
}

/// Adds the edge to a parent revision of a file, if there is that parent.
fn push_file_parent(
    edges: &mut Vec<OutgoingEdge>,
    path: &Option<MPath>,
    parent: &Option<HgFileNodeId>,
)
    ensures
        hops_of(final(edges)@) == hops_of(old(edges)@) + file_parent_hops(
            opt_text(*path),
            *parent,
        ),
{
    match parent {
        Some(id) => {
            push_edge(
                edges,
                EdgeType::HgFileNodeToHgParentFileNode,
                Node::HgFileNode(same_path(path), *id),
            );
        },
        None => {},
    }
    assert(hops_of(edges@) =~= hops_of(old(edges)@) + file_parent_hops(opt_text(*path), *parent));
}

/// Adds the edges that the history of a file revision gives.
fn push_file_node(edges: &mut Vec<OutgoingEdge>, path: &Option<MPath>, info: &FilenodeInfo)
    ensures
        hops_of(final(edges)@) == hops_of(old(edges)@) + file_node_hops(opt_text(*path), *info),
{
    push_edge(edges, EdgeType::HgLinkNodeToHgChangeset, Node::HgChangeset(info.linknode));
    push_edge(edges, EdgeType::HgLinkNodeToHgBonsaiMapping, Node::HgBonsaiMapping(info.linknode));
    push_file_parent(edges, path, &info.p1);
    push_file_parent(edges, path, &info.p2);
    match &info.copyfrom {
        Some(origin) => {
            push_edge(
                edges,
                EdgeType::HgFileNodeToHgCopyfromFileNode,
                Node::HgFileNode(Some(origin.0.clone()), origin.1),
            );
        },
        None => {},
    }
    assert(hops_of(edges@) =~= hops_of(old(edges)@) + file_node_hops(opt_text(*path), *info));
}

/// Works out the edges that leave `node`, given its payload. A payload of
/// another kind than the node, or a manifest with a nameless entry, gives
/// an error and no edges.
pub fn expand(node: &Node, data: &NodeData) -> (expanded: Result<
    Vec<OutgoingEdge>,
    ExpansionError,
>)
    ensures
        match outgoing(node@, *data) {
            Ok(hops) => expanded matches Ok(edges) && hops_of(edges@) == hops,
            Err(why) => expanded matches Err(e) && e == why,
        },
        expanded matches Ok(edges) ==> forall|i: int|
            0 <= i < edges.len() ==> (#[trigger] edges[i])@.fits(node@.kind()),
{
    let mut edges: Vec<OutgoingEdge> = Vec::new();
    assert(hops_of(edges@) =~= Seq::<Hop>::empty());
    match (node, data) {
        (Node::Bookmark(_), NodeData::Bookmark(target)) => {
            push_edge(&mut edges, EdgeType::BookmarkToBonsaiChangeset, Node::BonsaiChangeset(*target));
            push_edge(&mut edges, EdgeType::BookmarkToBonsaiHgMapping, Node::BonsaiHgMapping(*target));
        },
        (Node::BonsaiChangeset(id), NodeData::BonsaiChangeset(commit)) => {
            push_bonsai_parents(&mut edges, &commit.parents);
            push_edge(&mut edges, EdgeType::BonsaiChangesetToBonsaiHgMapping, Node::BonsaiHgMapping(*id));
            push_file_changes(&mut edges, &commit.file_changes);
        },
        (Node::BonsaiHgMapping(_), NodeData::BonsaiHgMapping(hg)) => {
            push_edge(&mut edges, EdgeType::BonsaiHgMappingToHgChangeset, Node::HgChangeset(*hg));
        },
        (Node::HgBonsaiMapping(_), NodeData::HgBonsaiMapping(mapped)) => {
            match mapped {
                Some(id) => {
                    push_edge(
                        &mut edges,
                        EdgeType::HgBonsaiMappingToBonsaiChangeset,
                        Node::BonsaiChangeset(*id),
                    );
                },
                None => {},
            }
        },
        (Node::HgChangeset(_), NodeData::HgChangeset(commit)) => {
            push_edge(
                &mut edges,
                EdgeType::HgChangesetToHgManifest,
                Node::HgManifest(None, commit.manifestid),
            );
            push_hg_parents(&mut edges, &commit.parents);
        },
        (Node::HgManifest(path, id), NodeData::HgManifest(manifest)) => {
            let mut i: usize = 0;
            while i < manifest.entries.len()
                invariant
                    *node == Node::HgManifest(*path, *id),
                    *data == NodeData::HgManifest(*manifest),
                    i <= manifest.entries@.len(),
                    entries_named(manifest.entries@.take(i as int)),
                    hops_of(edges@) == manifest_hops(
                        opt_text(*path),
                        manifest.entries@.take(i as int),
                    ),
                decreases manifest.entries@.len() - i,
            {
                let entry = &manifest.entries[i];
                if entry.name.as_str().is_empty() {
                    assert(manifest.entries@[i as int].name@.len() == 0);
                    assert(!entries_named(manifest.entries@));
                    return Err(ExpansionError::InvalidManifest);
                }
                proof {
                    let next = manifest.entries@.take(i + 1);
                    assert(next.drop_last() =~= manifest.entries@.take(i as int));
                    assert forall|j: int| 0 <= j < next.len() implies (#[trigger] next[j]).name@.len()
                        > 0 by {
                        if j < i {
                            assert(manifest.entries@.take(i as int)[j] == next[j]);
                        }
                    }
                }
                push_entry(&mut edges, path, entry);
                i += 1;
            }
            assert(manifest.entries@.take(i as int) =~= manifest.entries@);
        },
        (Node::HgFileEnvelope(_), NodeData::HgFileEnvelope(envelope)) => {
            push_edge(
                &mut edges,
                EdgeType::HgFileEnvelopeToFileContent,
                Node::FileContent(envelope.content_id),
            );
        },
        (Node::HgFileNode(path, _), NodeData::HgFileNode(history)) => {
            match history {
                Some(info) => {
                    push_file_node(&mut edges, path, info);
                },
                None => {},
            }
        },
        (Node::FileContent(id), NodeData::FileContent(_)) => {
            push_edge(
                &mut edges,
                EdgeType::FileContentToFileContentMetadata,
                Node::FileContentMetadata(*id),
            );
        },
        (Node::FileContentMetadata(_), NodeData::FileContentMetadata(meta)) => {
            push_edge(
                &mut edges,
                EdgeType::FileContentMetadataToSha1Alias,
                Node::AliasContentMapping(Alias::Sha1(meta.sha1)),
            );
            push_edge(
                &mut edges,
                EdgeType::FileContentMetadataToSha256Alias,
                Node::AliasContentMapping(Alias::Sha256(meta.sha256)),
            );
            push_edge(
                &mut edges,
                EdgeType::FileContentMetadataToGitSha1Alias,
                Node::AliasContentMapping(Alias::GitSha1(meta.git_sha1)),
            );
        },
        (Node::AliasContentMapping(_), NodeData::AliasContentMapping(content)) => {
            push_edge(
                &mut edges,
                EdgeType::AliasContentMappingToFileContent,
                Node::FileContent(*content),
            );
        },
        _ => {
            return Err(ExpansionError::PayloadMismatch);
        },
    }
    proof {
        assert(outgoing(node@, *data) is Ok);
        assert(hops_of(edges@) =~= outgoing(node@, *data)->Ok_0);
        lemma_outgoing_fits(node@, *data);
        assert forall|i: int| 0 <= i < edges.len() implies (#[trigger] edges[i])@.fits(
            node@.kind(),
        ) by {
            assert(hops_of(edges@)[i] == edges[i]@);
        }
    }
    Ok(edges)
}

/// Every edge that a manifest's entries give leaves a manifest and ends at
/// the kind that the schema declares.
pub proof fn lemma_manifest_hops_fit(parent: Option<Seq<char>>, entries: Seq<ManifestEntry>)
    ensures
        forall|i: int|
            0 <= i < manifest_hops(parent, entries).len() ==> (#[trigger] manifest_hops(
                parent,
                entries,
            )[i]).fits(NodeType::HgManifest),
    decreases entries.len(),
{
    if entries.len() > 0 {
        let front = manifest_hops(parent, entries.drop_last());
        let tail = entry_hops(parent, entries.last());
        let all = manifest_hops(parent, entries);
        lemma_manifest_hops_fit(parent, entries.drop_last());
        assert(all == front + tail);
        assert forall|i: int| 0 <= i < all.len() implies (#[trigger] all[i]).fits(
            NodeType::HgManifest,
        ) by {
            if i < front.len() {
                assert(all[i] == front[i]);
            } else {
                assert(all[i] == tail[i - front.len()]);
            }
        }
    }
}

/// Expansion keeps to the schema: every edge that leaves a node has that
/// node's kind as its declared source, and ends at a node of its declared
/// destination kind.
pub proof fn lemma_outgoing_fits(node: NodeId, data: NodeData)
    ensures
        outgoing(node, data) matches Ok(hops) ==> forall|i: int|
            0 <= i < hops.len() ==> (#[trigger] hops[i]).fits(node.kind()),
        outgoing(node, data) is Ok ==> payload_kind(data) == node.kind(),
{
    match (node, data) {
        (NodeId::HgManifest(path, _), NodeData::HgManifest(manifest)) => {
            lemma_manifest_hops_fit(path, manifest.entries@);
        },
        _ => {},
    }
}

} // verus!

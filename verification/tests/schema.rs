use walker::bytes::{bytes_same, opt_str_same, str_same};
use walker::error::ConfigError;
use walker::graph::{EdgeType, NodeType, EDGE_TYPE_COUNT, NODE_TYPE_COUNT};
use walker::ids::{Alias, ChangesetId, ContentId, HgChangesetId, HgFileNodeId, HgManifestId};
use walker::node::Node;

fn all_node_types() -> Vec<NodeType> {
    (0..NODE_TYPE_COUNT)
        .map(|i| NodeType::from_ordinal(i).unwrap())
        .collect()
}

fn all_edge_types() -> Vec<EdgeType> {
    (0..EDGE_TYPE_COUNT)
        .map(|i| EdgeType::from_ordinal(i).unwrap())
        .collect()
}

#[test]
fn node_type_names_round_trip() {
    for kind in all_node_types() {
        assert_eq!(NodeType::from_str(kind.name()), Ok(kind));
        assert_eq!(kind.to_string(), format!("{:?}", kind));
    }
}

#[test]
fn node_type_ordinals_are_positions() {
    let kinds = all_node_types();
    assert_eq!(kinds.len(), 11);
    for (i, kind) in kinds.iter().enumerate() {
        assert_eq!(kind.ordinal(), i);
    }
    assert_eq!(NodeType::from_ordinal(NODE_TYPE_COUNT), None);
    assert_eq!(NodeType::Bookmark.ordinal(), 0);
    assert_eq!(NodeType::AliasContentMapping.ordinal(), 10);
}

#[test]
fn unknown_node_type_is_an_error() {
    let parsed = NodeType::from_str("Bogus");
    assert_eq!(parsed, Err(ConfigError::UnknownNodeType("Bogus".to_string())));
    assert_eq!(parsed.unwrap_err().message(), "Unknown NodeType Bogus");
    assert!(NodeType::from_str("").is_err());
    assert!(NodeType::from_str("bookmark").is_err());
    assert!(NodeType::from_str("Bookmark ").is_err());
}

#[test]
fn edge_type_names_round_trip() {
    for kind in all_edge_types() {
        assert_eq!(kind.to_string(), format!("{:?}", kind));
        assert_eq!(EdgeType::from_str(kind.name()), Ok(kind));
        assert_eq!(EdgeType::from_str(&kind.to_string()), Ok(kind));
    }
    assert_eq!(
        EdgeType::from_str("HgLinkNodeToHgChangeset"),
        Ok(EdgeType::HgLinkNodeToHgChangeset)
    );
}

#[test]
fn unknown_edge_type_is_an_error() {
    let parsed = EdgeType::from_str("Bogus");
    assert_eq!(parsed, Err(ConfigError::UnknownEdgeType("Bogus".to_string())));
    assert_eq!(parsed.unwrap_err().message(), "Unknown EdgeType Bogus");
}

#[test]
fn edge_type_ordinals_are_positions() {
    let kinds = all_edge_types();
    assert_eq!(kinds.len(), 23);
    for (i, kind) in kinds.iter().enumerate() {
        assert_eq!(kind.ordinal(), i);
    }
    assert_eq!(EdgeType::from_ordinal(EDGE_TYPE_COUNT), None);
}

#[test]
fn only_the_root_edge_has_no_source() {
    for kind in all_edge_types() {
        assert_eq!(
            kind.incoming_type().is_none(),
            kind == EdgeType::RootToBookmark
        );
    }
    assert_eq!(EdgeType::RootToBookmark.outgoing_type(), NodeType::Bookmark);
}

#[test]
fn edges_join_the_declared_kinds() {
    let table = [
        (EdgeType::RootToBookmark, None, NodeType::Bookmark),
        (EdgeType::BookmarkToBonsaiChangeset, Some(NodeType::Bookmark), NodeType::BonsaiChangeset),
        (EdgeType::BookmarkToBonsaiHgMapping, Some(NodeType::Bookmark), NodeType::BonsaiHgMapping),
        (EdgeType::BonsaiChangesetToFileContent, Some(NodeType::BonsaiChangeset), NodeType::FileContent),
        (EdgeType::BonsaiChangesetToBonsaiParent, Some(NodeType::BonsaiChangeset), NodeType::BonsaiChangeset),
        (EdgeType::BonsaiChangesetToBonsaiHgMapping, Some(NodeType::BonsaiChangeset), NodeType::BonsaiHgMapping),
        (EdgeType::BonsaiHgMappingToHgChangeset, Some(NodeType::BonsaiHgMapping), NodeType::HgChangeset),
        (EdgeType::HgBonsaiMappingToBonsaiChangeset, Some(NodeType::HgBonsaiMapping), NodeType::BonsaiChangeset),
        (EdgeType::HgChangesetToHgParent, Some(NodeType::HgChangeset), NodeType::HgChangeset),
        (EdgeType::HgChangesetToHgManifest, Some(NodeType::HgChangeset), NodeType::HgManifest),
        (EdgeType::HgManifestToHgFileEnvelope, Some(NodeType::HgManifest), NodeType::HgFileEnvelope),
        (EdgeType::HgManifestToHgFileNode, Some(NodeType::HgManifest), NodeType::HgFileNode),
        (EdgeType::HgManifestToChildHgManifest, Some(NodeType::HgManifest), NodeType::HgManifest),
        (EdgeType::HgFileEnvelopeToFileContent, Some(NodeType::HgFileEnvelope), NodeType::FileContent),
        (EdgeType::HgLinkNodeToHgBonsaiMapping, Some(NodeType::HgFileNode), NodeType::HgBonsaiMapping),
        (EdgeType::HgLinkNodeToHgChangeset, Some(NodeType::HgFileNode), NodeType::HgChangeset),
        (EdgeType::HgFileNodeToHgParentFileNode, Some(NodeType::HgFileNode), NodeType::HgFileNode),
        (EdgeType::HgFileNodeToHgCopyfromFileNode, Some(NodeType::HgFileNode), NodeType::HgFileNode),
        (EdgeType::FileContentToFileContentMetadata, Some(NodeType::FileContent), NodeType::FileContentMetadata),
        (EdgeType::FileContentMetadataToSha1Alias, Some(NodeType::FileContentMetadata), NodeType::AliasContentMapping),
        (EdgeType::FileContentMetadataToSha256Alias, Some(NodeType::FileContentMetadata), NodeType::AliasContentMapping),
        (EdgeType::FileContentMetadataToGitSha1Alias, Some(NodeType::FileContentMetadata), NodeType::AliasContentMapping),
        (EdgeType::AliasContentMappingToFileContent, Some(NodeType::AliasContentMapping), NodeType::FileContent),
    ];
    assert_eq!(table.len(), EDGE_TYPE_COUNT);
    for (edge, from, to) in table {
        assert_eq!(edge.incoming_type(), from);
        assert_eq!(edge.outgoing_type(), to);
    }
}

fn one_node_of_each_kind() -> Vec<(Node, NodeType)> {
    vec![
        (Node::Bookmark("main".to_string()), NodeType::Bookmark),
        (Node::BonsaiChangeset(ChangesetId([1; 32])), NodeType::BonsaiChangeset),
        (Node::BonsaiHgMapping(ChangesetId([1; 32])), NodeType::BonsaiHgMapping),
        (Node::HgBonsaiMapping(HgChangesetId([2; 20])), NodeType::HgBonsaiMapping),
        (Node::HgChangeset(HgChangesetId([2; 20])), NodeType::HgChangeset),
        (Node::HgManifest(None, HgManifestId([3; 20])), NodeType::HgManifest),
        (Node::HgFileEnvelope(HgFileNodeId([4; 20])), NodeType::HgFileEnvelope),
        (
            Node::HgFileNode(Some("a/b".to_string()), HgFileNodeId([4; 20])),
            NodeType::HgFileNode,
        ),
        (Node::FileContent(ContentId([5; 32])), NodeType::FileContent),
        (Node::FileContentMetadata(ContentId([5; 32])), NodeType::FileContentMetadata),
        (Node::AliasContentMapping(Alias::Sha1([6; 20])), NodeType::AliasContentMapping),
    ]
}

#[test]
fn node_kind_is_its_variant() {
    for (node, kind) in one_node_of_each_kind() {
        assert_eq!(node.get_type(), kind);
    }
}

#[test]
fn node_identity_is_exact() {
    let nodes = one_node_of_each_kind();
    for (i, (a, _)) in nodes.iter().enumerate() {
        for (j, (b, _)) in nodes.iter().enumerate() {
            assert_eq!(a.same(b), i == j);
            assert_eq!(a.same(b), a == b);
        }
        assert!(a.same(&a.duplicate()));
        assert_eq!(&a.duplicate(), a);
    }
    let at_root = Node::HgManifest(None, HgManifestId([3; 20]));
    let at_dir = Node::HgManifest(Some("dir".to_string()), HgManifestId([3; 20]));
    let at_other = Node::HgManifest(Some("dir2".to_string()), HgManifestId([3; 20]));
    assert!(!at_root.same(&at_dir));
    assert!(!at_dir.same(&at_other));
    let mut other_hash = [3u8; 20];
    other_hash[19] = 4;
    assert!(!at_root.same(&Node::HgManifest(None, HgManifestId(other_hash))));
    assert!(!Node::AliasContentMapping(Alias::Sha1([6; 20]))
        .same(&Node::AliasContentMapping(Alias::GitSha1([6; 20]))));
    assert!(!Node::Bookmark("main".to_string()).same(&Node::Bookmark("main2".to_string())));
}

#[test]
fn only_manifests_and_file_nodes_carry_a_path() {
    for (node, kind) in one_node_of_each_kind() {
        match kind {
            NodeType::HgFileNode => assert_eq!(node.path(), Some("a/b")),
            _ => assert_eq!(node.path(), None),
        }
    }
    let dir = Node::HgManifest(Some("dir".to_string()), HgManifestId([3; 20]));
    assert_eq!(dir.path(), Some("dir"));
}

#[test]
fn ids_are_made_from_bytes_of_the_right_length() {
    assert_eq!(ChangesetId::from_bytes(&[7u8; 32][..]), Some(ChangesetId([7; 32])));
    assert_eq!(ChangesetId::from_bytes(&[7u8; 31][..]), None);
    assert_eq!(ChangesetId::from_bytes(&[7u8; 33][..]), None);
    assert_eq!(ContentId::from_bytes(&[7u8; 32][..]), Some(ContentId([7; 32])));
    assert_eq!(ContentId::from_bytes(&[][..]), None);
    assert_eq!(HgChangesetId::from_bytes(&[7u8; 20][..]), Some(HgChangesetId([7; 20])));
    assert_eq!(HgChangesetId::from_bytes(&[7u8; 32][..]), None);
    assert_eq!(HgManifestId::from_bytes(&[7u8; 20][..]), Some(HgManifestId([7; 20])));
    assert_eq!(HgManifestId::from_bytes(&[7u8; 19][..]), None);
    assert_eq!(HgFileNodeId::from_bytes(&[7u8; 20][..]), Some(HgFileNodeId([7; 20])));
    assert_eq!(HgFileNodeId::from_bytes(&[7u8; 21][..]), None);
    let mut bytes = [0u8; 32];
    for (i, b) in bytes.iter_mut().enumerate() {
        *b = i as u8;
    }
    assert_eq!(ChangesetId::from_bytes(&bytes[..]).unwrap().0, bytes);
}

#[test]
fn fingerprint_of_a_hash_is_its_leading_word() {
    let mut bytes = [0u8; 32];
    bytes[..8].copy_from_slice(&[0x01, 0x02, 0x03, 0x04, 0x05, 0x06, 0x07, 0x08]);
    bytes[8] = 0xff;
    let want = 0x0807_0605_0403_0201u64;
    assert_eq!(ChangesetId(bytes).sampling_fingerprint(), want);
    assert_eq!(ContentId(bytes).sampling_fingerprint(), u64::from_le_bytes(bytes[..8].try_into().unwrap()));
    assert_eq!(Node::BonsaiChangeset(ChangesetId(bytes)).sampling_fingerprint(), want);
    assert_eq!(Node::FileContent(ContentId(bytes)).sampling_fingerprint(), want);
    let mut short = [0u8; 20];
    short[..8].copy_from_slice(&[0xff; 8]);
    assert_eq!(HgChangesetId(short).sampling_fingerprint(), u64::MAX);
    assert_eq!(Alias::GitSha1(short).sampling_fingerprint(), u64::MAX);
    assert_eq!(
        Node::HgFileNode(Some("x".to_string()), HgFileNodeId(short)).sampling_fingerprint(),
        u64::MAX
    );
    assert_eq!(
        Node::HgManifest(None, HgManifestId([0; 20])).sampling_fingerprint(),
        0
    );
}

#[test]
fn fingerprint_reads_each_of_the_leading_bytes() {
    for i in 0..8 {
        let mut bytes = [0u8; 20];
        bytes[i] = 1;
        assert_eq!(HgChangesetId(bytes).sampling_fingerprint(), 1u64 << (8 * i));
    }
    let mut bytes = [0u8; 20];
    bytes[7] = 0x80;
    assert_eq!(HgFileNodeId(bytes).sampling_fingerprint(), 1u64 << 63);
    bytes[7] = 0;
    bytes[8] = 0xff;
    assert_eq!(HgManifestId(bytes).sampling_fingerprint(), 0);
}

#[test]
fn fingerprint_of_a_bookmark_is_fnv1a_of_its_name() {
    assert_eq!(walker::bytes::fnv1a_hash(b""), 0xcbf2_9ce4_8422_2325);
    assert_eq!(walker::bytes::fnv1a_hash(b"a"), 0xaf63_dc4c_8601_ec8c);
    assert_eq!(walker::bytes::fnv1a_hash(b"foobar"), 0x8594_4171_f739_67e8);
    assert_eq!(
        Node::Bookmark("foobar".to_string()).sampling_fingerprint(),
        0x8594_4171_f739_67e8
    );
    assert_eq!(
        Node::Bookmark(String::new()).sampling_fingerprint(),
        0xcbf2_9ce4_8422_2325
    );
}

#[test]
fn texts_and_bytes_are_told_apart() {
    assert!(bytes_same(b"abc", b"abc"));
    assert!(!bytes_same(b"abc", b"abd"));
    assert!(!bytes_same(b"abc", b"ab"));
    assert!(bytes_same(b"", b""));
    assert!(str_same("héllo", "héllo"));
    assert!(!str_same("héllo", "hello"));
    assert!(opt_str_same(&None, &None));
    assert!(!opt_str_same(&None, &Some(String::new())));
    assert!(opt_str_same(&Some("a".to_string()), &Some("a".to_string())));
}

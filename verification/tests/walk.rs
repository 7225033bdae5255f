use walker::error::ConfigError;
use walker::expand::{expand, ExpansionError, OutgoingEdge};
use walker::graph::{EdgeType, NodeType};
use walker::ids::{Alias, ChangesetId, ContentId, HgChangesetId, HgFileNodeId, HgManifestId};
use walker::model::WalkState;
use walker::node::Node;
use walker::payload::{
    BonsaiChangeset, ChunkStream, ContentMetadata, FileContentData, FilenodeInfo, HgBlobChangeset, HgEntryId,
    HgFileEnvelope, HgManifest, ManifestEntry, NodeData,
};
use walker::sampling::{SamplingArgs, SamplingOptions};
use walker::stats::{NodeTally, WalkStats};
use walker::typeset::{EdgeTypeSet, NodeTypeSet};
use walker::visited::VisitedSet;
use walker::walk::{LoadError, Walk, WalkConfig, WalkFatalError, WalkPolicy};

fn lenient() -> WalkPolicy {
    WalkPolicy {
        fail_fast: false,
        error_limit: None,
        node_budget: None,
        byte_budget: None,
        strict: false,
        workers: None,
    }
}

fn config(nodes: NodeTypeSet, edges: EdgeTypeSet, policy: WalkPolicy) -> WalkConfig {
    WalkConfig {
        node_types: nodes,
        edge_types: edges,
        sampling: SamplingOptions::every_node(),
        policy,
    }
}

fn everything(policy: WalkPolicy) -> WalkConfig {
    config(NodeTypeSet::all(), EdgeTypeSet::all(), policy)
}

fn cs(n: u8) -> ChangesetId {
    ChangesetId([n; 32])
}

fn content(n: u8) -> ContentId {
    ContentId([n; 32])
}

fn edge(label: EdgeType, target: Node) -> OutgoingEdge {
    OutgoingEdge { label, target }
}

/// Runs a walk to its end, one node at a time, loading with `load`.
fn run(walk: &mut Walk, load: &dyn Fn(&Node) -> Result<NodeData, LoadError>) -> Vec<Node> {
    let mut order = vec![];
    while let Some(index) = walk.next_node() {
        let node = walk.node(index).unwrap().clone();
        assert!(walk.complete(index, load(&node)));
        order.push(node);
    }
    order
}

#[test]
fn walk_from_a_bookmark_to_its_commit() {
    let nodes = NodeTypeSet::all();
    let edges = EdgeTypeSet::from_kinds(&[
        EdgeType::RootToBookmark,
        EdgeType::BookmarkToBonsaiChangeset,
    ]);
    let mut walk = Walk::new(config(nodes, edges, lenient()));
    assert_eq!(walk.state(), WalkState::Seeding);
    assert!(walk.seed(&[Node::Bookmark("main".to_string())]));
    assert_eq!(walk.state(), WalkState::Running);
    let load = |node: &Node| match node {
        Node::Bookmark(_) => Ok(NodeData::Bookmark(cs(0xc))),
        Node::BonsaiChangeset(_) => Ok(NodeData::BonsaiChangeset(BonsaiChangeset {
            parents: vec![cs(0xd)],
            file_changes: vec![content(1)],
        })),
        _ => Err(LoadError::NotFound),
    };
    let order = run(&mut walk, &load);
    assert_eq!(
        order,
        vec![
            Node::Bookmark("main".to_string()),
            Node::BonsaiChangeset(cs(0xc))
        ]
    );
    assert_eq!(walk.state(), WalkState::Draining);
    let report = walk.finish();
    assert_eq!(walk.state(), WalkState::Done);
    assert_eq!(report.state, WalkState::Done);
    assert_eq!(report.visited, 2);
    assert!(report.complete);
    assert!(report.success);
    assert_eq!(report.fatal, None);
    assert_eq!(report.exit_code(), 0);
    assert_eq!(report.errors, 0);
    assert_eq!(report.stats.node_stats(NodeType::BonsaiChangeset).count, 1);
    assert_eq!(report.stats.node_stats(NodeType::Bookmark).count, 1);
    assert_eq!(report.stats.node_stats(NodeType::BonsaiHgMapping).count, 0);
    assert_eq!(report.stats.node_stats(NodeType::FileContent).count, 0);
    assert_eq!(report.stats.edge_count(EdgeType::RootToBookmark), 1);
    assert_eq!(report.stats.edge_count(EdgeType::BookmarkToBonsaiChangeset), 1);
    assert_eq!(report.stats.edge_count(EdgeType::BookmarkToBonsaiHgMapping), 0);
    assert_eq!(report.stats.edge_count(EdgeType::BonsaiChangesetToBonsaiParent), 0);
    assert!(walk.contains(&Node::Bookmark("main".to_string())));
    assert!(walk.contains(&Node::BonsaiChangeset(cs(0xc))));
    assert!(!walk.contains(&Node::BonsaiChangeset(cs(0xd))));
    assert!(!walk.contains(&Node::BonsaiHgMapping(cs(0xc))));
}

fn file_entry(name: &str, n: u8) -> ManifestEntry {
    ManifestEntry {
        name: name.to_string(),
        id: HgEntryId::File(HgFileNodeId([n; 20])),
    }
}

fn dir_entry(name: &str, n: u8) -> ManifestEntry {
    ManifestEntry {
        name: name.to_string(),
        id: HgEntryId::Manifest(HgManifestId([n; 20])),
    }
}

#[test]
fn corrupt_content_is_counted_and_the_walk_completes() {
    let nodes = NodeTypeSet::all();
    let edges = EdgeTypeSet::from_kinds(&[
        EdgeType::HgManifestToHgFileEnvelope,
        EdgeType::HgFileEnvelopeToFileContent,
    ]);
    let mut walk = Walk::new(config(nodes, edges, lenient()));
    assert!(walk.seed(&[Node::HgManifest(None, HgManifestId([9; 20]))]));
    let load = |node: &Node| match node {
        Node::HgManifest(_, _) => Ok(NodeData::HgManifest(HgManifest {
            entries: vec![file_entry("a.txt", 1)],
        })),
        Node::HgFileEnvelope(_) => Ok(NodeData::HgFileEnvelope(HgFileEnvelope {
            content_id: content(7),
            content_size: 3,
        })),
        Node::FileContent(_) => Err(LoadError::Corrupt),
        _ => Err(LoadError::NotFound),
    };
    let order = run(&mut walk, &load);
    assert_eq!(order.len(), 3);
    assert_eq!(walk.state(), WalkState::Draining);
    let report = walk.finish();
    assert_eq!(report.state, WalkState::Done);
    assert!(report.complete);
    assert!(report.success);
    assert_eq!(report.exit_code(), 0);
    assert_eq!(report.errors, 1);
    assert_eq!(report.stats.node_stats(NodeType::FileContent).errors, 1);
    assert_eq!(report.stats.node_stats(NodeType::FileContent).count, 1);
    assert_eq!(report.stats.node_stats(NodeType::HgManifest).errors, 0);
    assert_eq!(report.stats.node_stats(NodeType::HgFileEnvelope).errors, 0);
}

#[test]
fn strict_walk_with_a_damaged_node_is_no_success() {
    let mut policy = lenient();
    policy.strict = true;
    for (error, spoils) in [
        (LoadError::Corrupt, true),
        (LoadError::NotFound, true),
        (LoadError::StorageUnavailable, false),
    ] {
        let mut walk = Walk::new(everything(policy));
        assert!(walk.seed(&[Node::FileContent(content(1))]));
        let order = run(&mut walk, &|_| Err(error));
        assert_eq!(order.len(), 1);
        let report = walk.finish();
        assert_eq!(report.state, WalkState::Done);
        assert_eq!(report.errors, 1);
        assert_eq!(report.success, !spoils);
        assert_eq!(report.complete, !spoils);
        assert_eq!(report.exit_code(), if spoils { 1 } else { 0 });
    }
}

#[test]
fn fail_fast_ends_the_walk_at_the_first_failure() {
    let mut policy = lenient();
    policy.fail_fast = true;
    let mut walk = Walk::new(everything(policy));
    assert!(walk.seed(&[
        Node::FileContent(content(1)),
        Node::FileContent(content(2)),
        Node::FileContent(content(3)),
    ]));
    let first = walk.next_node().unwrap();
    let second = walk.next_node().unwrap();
    assert_eq!(walk.in_flight(), 2);
    assert!(walk.complete(first, Err(LoadError::StorageUnavailable)));
    assert_eq!(walk.state(), WalkState::Failed);
    // nothing more is handed out, and what is in flight is left behind
    assert_eq!(walk.next_node(), None);
    assert!(!walk.complete(second, Err(LoadError::NotFound)));
    let report = walk.finish();
    assert_eq!(report.state, WalkState::Failed);
    assert_eq!(walk.state(), WalkState::Failed);
    assert!(!report.complete);
    assert!(!report.success);
    assert_eq!(report.exit_code(), 1);
    assert_eq!(report.errors, 1);
    assert_eq!(report.visited, 3);
    assert_eq!(report.fatal, Some(WalkFatalError::FailFast));
}

#[test]
fn error_limit_bears_so_many_failures() {
    let mut policy = lenient();
    policy.error_limit = Some(2);
    let mut walk = Walk::new(everything(policy));
    let roots: Vec<Node> = (1..=5).map(|n| Node::FileContent(content(n))).collect();
    assert!(walk.seed(&roots));
    for expected in [WalkState::Running, WalkState::Running, WalkState::Failed] {
        let index = walk.next_node().unwrap();
        assert!(walk.complete(index, Err(LoadError::NotFound)));
        assert_eq!(walk.state(), expected);
    }
    assert_eq!(walk.snapshot().errors, 3);
    assert_eq!(walk.snapshot().fatal, Some(WalkFatalError::TooManyErrors));
    assert_eq!(walk.next_node(), None);
}

#[test]
fn node_budget_ends_the_walk() {
    let mut policy = lenient();
    policy.node_budget = Some(3);
    let mut walk = Walk::new(everything(policy));
    assert!(walk.seed(&[Node::BonsaiChangeset(cs(1))]));
    let index = walk.next_node().unwrap();
    let data = NodeData::BonsaiChangeset(BonsaiChangeset {
        parents: vec![cs(2)],
        file_changes: vec![],
    });
    // the commit, its parent and its mapping: three nodes, within budget
    assert!(walk.complete(index, Ok(data)));
    assert_eq!(walk.visited_count(), 3);
    assert_eq!(walk.state(), WalkState::Running);
    let index = walk.next_node().unwrap();
    let data = NodeData::BonsaiChangeset(BonsaiChangeset {
        parents: vec![cs(3)],
        file_changes: vec![],
    });
    assert!(walk.complete(index, Ok(data)));
    assert_eq!(walk.visited_count(), 5);
    assert_eq!(walk.state(), WalkState::Failed);
    let report = walk.finish();
    assert!(!report.success);
    assert_eq!(report.fatal, Some(WalkFatalError::NodeBudgetExceeded));
}

#[test]
fn byte_budget_ends_the_walk() {
    let mut policy = lenient();
    policy.byte_budget = Some(4);
    let mut walk = Walk::new(everything(policy));
    assert!(walk.seed(&[Node::FileContent(content(1)), Node::FileContent(content(2))]));
    let index = walk.next_node().unwrap();
    let stream = FileContentData::unread(vec![vec![1, 2], vec![3, 4]]);
    assert!(walk.complete(index, Ok(NodeData::FileContent(stream))));
    assert_eq!(walk.state(), WalkState::Running);
    assert_eq!(walk.snapshot().bytes, 4);
    let index = walk.next_node().unwrap();
    let stream = FileContentData::unread(vec![vec![5]]);
    assert!(walk.complete(index, Ok(NodeData::FileContent(stream))));
    assert_eq!(walk.state(), WalkState::Failed);
    assert_eq!(walk.snapshot().bytes, 5);
    assert_eq!(walk.snapshot().fatal, Some(WalkFatalError::ByteBudgetExceeded));
    assert_eq!(walk.stats().node_stats(NodeType::FileContent).bytes, 5);
}

#[test]
fn only_sampled_nodes_are_measured() {
    let args = SamplingArgs {
        sample_rate: Some(2),
        sample_offset: 0,
        exclude_sample_node_type: vec![],
        include_sample_node_type: vec![],
        sample_path_regex: None,
    };
    let mut cfg = everything(lenient());
    cfg.sampling = args.parse_args(1).unwrap();
    cfg.edge_types = EdgeTypeSet::empty();
    let mut walk = Walk::new(cfg);
    let mut even = [0u8; 32];
    even[0] = 2;
    let mut odd = [0u8; 32];
    odd[0] = 3;
    assert!(walk.seed(&[
        Node::FileContent(ContentId(even)),
        Node::FileContent(ContentId(odd)),
    ]));
    let load = |_: &Node| {
        Ok(NodeData::FileContent(FileContentData::unread(vec![
            vec![0; 10],
            vec![0; 5],
        ])))
    };
    let order = run(&mut walk, &load);
    // sampling decides what is measured, never what is visited
    assert_eq!(order.len(), 2);
    let report = walk.finish();
    assert_eq!(report.visited, 2);
    assert_eq!(report.bytes, 15);
    assert_eq!(
        report.stats.node_stats(NodeType::FileContent),
        NodeTally {
            count: 2,
            bytes: 15,
            errors: 0
        }
    );
}

#[test]
fn a_node_reached_twice_is_visited_once() {
    // two commits share a parent and a file; the parent has the file too
    let load = |node: &Node| match node {
        Node::Bookmark(name) if name == "a" => Ok(NodeData::Bookmark(cs(1))),
        Node::Bookmark(_) => Ok(NodeData::Bookmark(cs(2))),
        Node::BonsaiChangeset(id) if *id == cs(1) || *id == cs(2) => {
            Ok(NodeData::BonsaiChangeset(BonsaiChangeset {
                parents: vec![cs(3)],
                file_changes: vec![content(9)],
            }))
        }
        Node::BonsaiChangeset(_) => Ok(NodeData::BonsaiChangeset(BonsaiChangeset {
            parents: vec![],
            file_changes: vec![content(9), content(9)],
        })),
        Node::FileContent(_) => Ok(NodeData::FileContent(FileContentData::Consumed(4))),
        _ => Err(LoadError::NotFound),
    };
    let edges = EdgeTypeSet::from_kinds(&[
        EdgeType::RootToBookmark,
        EdgeType::BookmarkToBonsaiChangeset,
        EdgeType::BonsaiChangesetToBonsaiParent,
        EdgeType::BonsaiChangesetToFileContent,
    ]);
    let mut walk = Walk::new(config(NodeTypeSet::all(), edges, lenient()));
    assert!(walk.seed(&[
        Node::Bookmark("a".to_string()),
        Node::Bookmark("b".to_string()),
        Node::Bookmark("a".to_string()),
    ]));
    let order = run(&mut walk, &load);
    assert_eq!(
        order,
        vec![
            Node::Bookmark("a".to_string()),
            Node::Bookmark("b".to_string()),
            Node::BonsaiChangeset(cs(1)),
            Node::BonsaiChangeset(cs(2)),
            Node::BonsaiChangeset(cs(3)),
            Node::FileContent(content(9)),
        ]
    );
    for (i, a) in order.iter().enumerate() {
        for b in &order[i + 1..] {
            assert_ne!(a, b);
        }
        assert_eq!(walk.position(a), Some(i));
    }
    let report = walk.finish();
    assert!(report.complete);
    assert_eq!(report.visited, 6);
    assert_eq!(report.stats.node_stats(NodeType::Bookmark).count, 2);
    assert_eq!(report.stats.node_stats(NodeType::BonsaiChangeset).count, 3);
    assert_eq!(report.stats.node_stats(NodeType::FileContent).count, 1);
    // every step along an edge counts, also to a node that was seen before
    assert_eq!(report.stats.edge_count(EdgeType::RootToBookmark), 3);
    assert_eq!(report.stats.edge_count(EdgeType::BookmarkToBonsaiChangeset), 2);
    assert_eq!(report.stats.edge_count(EdgeType::BonsaiChangesetToBonsaiParent), 2);
    assert_eq!(report.stats.edge_count(EdgeType::BonsaiChangesetToFileContent), 4);
    // the file's payload was read once
    assert_eq!(report.bytes, 4);
}

fn diamond(node: &Node) -> Result<NodeData, LoadError> {
    match node {
        Node::BonsaiChangeset(id) => {
            let n = id.0[0];
            let parents = match n {
                1 => vec![cs(2), cs(3)],
                2 | 3 => vec![cs(4)],
                4 => vec![cs(1)],
                _ => vec![],
            };
            Ok(NodeData::BonsaiChangeset(BonsaiChangeset {
                parents,
                file_changes: vec![],
            }))
        }
        Node::BonsaiHgMapping(_) => Err(LoadError::NotFound),
        _ => Err(LoadError::StorageUnavailable),
    }
}

fn sorted(mut nodes: Vec<Node>) -> Vec<String> {
    let mut names: Vec<String> = nodes.drain(..).map(|n| format!("{:?}", n)).collect();
    names.sort();
    names
}

#[test]
fn the_visited_set_does_not_depend_on_the_order_of_loading() {
    // one at a time, first in first out
    let mut serial = Walk::new(everything(lenient()));
    assert!(serial.seed(&[Node::BonsaiChangeset(cs(1))]));
    let serial_order = run(&mut serial, &diamond);
    let serial_report = serial.finish();

    // as many in flight as there are, answered last first
    let mut wide = Walk::new(everything(lenient()));
    assert!(wide.seed(&[Node::BonsaiChangeset(cs(1))]));
    let mut steps = 0;
    loop {
        let mut batch = vec![];
        while let Some(index) = wide.next_node() {
            batch.push(index);
        }
        if batch.is_empty() {
            break;
        }
        assert_eq!(wide.in_flight(), batch.len());
        for index in batch.into_iter().rev() {
            let node = wide.node(index).unwrap().clone();
            assert!(wide.complete(index, diamond(&node)));
            steps += 1;
        }
    }
    let wide_report = wide.finish();
    let wide_nodes: Vec<Node> = (0..wide.visited_count())
        .map(|i| wide.node(i).unwrap().clone())
        .collect();

    assert!(serial_report.complete && wide_report.complete);
    assert_eq!(serial_report.visited, 8);
    assert_eq!(steps, 8);
    assert_eq!(sorted(serial_order), sorted(wide_nodes));
    assert_eq!(serial_report.stats, wide_report.stats);
    assert_eq!(serial_report.errors, 4);
    assert_eq!(serial_report.stats.node_stats(NodeType::BonsaiChangeset).count, 4);
    assert_eq!(serial_report.stats.node_stats(NodeType::BonsaiHgMapping).errors, 4);
}

#[test]
fn a_cycle_ends_within_as_many_loads_as_there_are_nodes() {
    let mut walk = Walk::new(config(
        NodeTypeSet::from_kinds(&[NodeType::BonsaiChangeset]),
        EdgeTypeSet::all(),
        lenient(),
    ));
    assert!(walk.seed(&[Node::BonsaiChangeset(cs(1))]));
    let order = run(&mut walk, &diamond);
    assert_eq!(order.len(), 4);
    assert_eq!(walk.frontier_len(), 0);
    assert_eq!(walk.in_flight(), 0);
    assert_eq!(walk.state(), WalkState::Draining);
    let report = walk.finish();
    assert_eq!(report.visited, 4);
    // the mapping is not a visited kind, so the edge to it is dead
    assert_eq!(report.stats.edge_count(EdgeType::BonsaiChangesetToBonsaiHgMapping), 0);
    assert_eq!(report.stats.edge_count(EdgeType::BonsaiChangesetToBonsaiParent), 5);
}

#[test]
fn nodes_are_handed_out_first_in_first_out() {
    let mut walk = Walk::new(everything(lenient()));
    let roots = vec![
        Node::FileContentMetadata(content(3)),
        Node::FileContentMetadata(content(1)),
        Node::FileContentMetadata(content(2)),
    ];
    assert!(walk.seed(&roots));
    assert_eq!(walk.frontier_len(), 3);
    for (i, root) in roots.iter().enumerate() {
        assert_eq!(walk.next_node(), Some(i));
        assert_eq!(walk.node(i), Some(root));
    }
    assert_eq!(walk.next_node(), None);
    assert_eq!(walk.node(3), None);
    assert_eq!(walk.frontier_len(), 0);
    assert_eq!(walk.in_flight(), 3);
    assert_eq!(walk.state(), WalkState::Running);
}

#[test]
fn outcomes_are_taken_only_for_nodes_in_flight() {
    let mut walk = Walk::new(everything(lenient()));
    // not running yet
    assert!(!walk.complete(0, Err(LoadError::NotFound)));
    assert_eq!(walk.next_node(), None);
    assert!(walk.seed(&[Node::FileContent(content(1)), Node::FileContent(content(2))]));
    // seeded once only
    assert!(!walk.seed(&[Node::FileContent(content(3))]));
    assert_eq!(walk.visited_count(), 2);
    // not handed out yet
    assert!(!walk.complete(0, Err(LoadError::NotFound)));
    assert_eq!(walk.next_node(), Some(0));
    // not discovered at all
    assert!(!walk.complete(7, Err(LoadError::NotFound)));
    assert!(!walk.complete(1, Err(LoadError::NotFound)));
    assert!(walk.complete(0, Ok(NodeData::FileContent(FileContentData::Consumed(0)))));
    // came back already
    assert!(!walk.complete(0, Err(LoadError::NotFound)));
    assert_eq!(walk.snapshot().errors, 0);
    assert_eq!(walk.stats().node_stats(NodeType::FileContentMetadata).count, 1);
}

#[test]
fn a_walk_without_roots_drains_at_once() {
    let mut walk = Walk::new(everything(lenient()));
    assert!(walk.seed(&[]));
    assert_eq!(walk.state(), WalkState::Draining);
    assert_eq!(walk.next_node(), None);
    let report = walk.finish();
    assert_eq!(report.state, WalkState::Done);
    assert!(report.complete);
    assert_eq!(report.visited, 0);
    assert_eq!(report.stats, WalkStats::new());
}

#[test]
fn a_cancelled_walk_drains_with_a_partial_report() {
    let mut walk = Walk::new(everything(lenient()));
    assert!(walk.seed(&[Node::FileContent(content(1)), Node::FileContent(content(2))]));
    let index = walk.next_node().unwrap();
    assert!(walk.cancel());
    assert_eq!(walk.state(), WalkState::Draining);
    assert!(!walk.cancel());
    assert_eq!(walk.next_node(), None);
    assert!(!walk.complete(index, Err(LoadError::NotFound)));
    let report = walk.finish();
    assert_eq!(report.state, WalkState::Done);
    assert!(!report.complete);
    assert!(report.success);
    assert_eq!(report.visited, 2);
    // finishing twice changes nothing
    assert_eq!(walk.finish(), report);
}

#[test]
fn finishing_a_running_walk_leaves_it_running() {
    let mut walk = Walk::new(everything(lenient()));
    assert!(walk.seed(&[Node::FileContent(content(1))]));
    let report = walk.finish();
    assert_eq!(report.state, WalkState::Running);
    assert!(!report.complete);
    assert_eq!(walk.state(), WalkState::Running);
    assert_eq!(walk.next_node(), Some(0));
}

#[test]
fn a_payload_of_another_kind_fails_the_node() {
    let mut walk = Walk::new(everything(lenient()));
    assert!(walk.seed(&[Node::Bookmark("main".to_string())]));
    let index = walk.next_node().unwrap();
    assert!(walk.complete(index, Ok(NodeData::AliasContentMapping(content(1)))));
    let report = walk.finish();
    assert_eq!(report.visited, 1);
    assert_eq!(report.errors, 1);
    assert_eq!(report.stats.node_stats(NodeType::Bookmark).errors, 1);
    assert!(report.success);
}

#[test]
fn expansion_of_each_kind() {
    let hg = HgChangesetId([2; 20]);
    let file = HgFileNodeId([4; 20]);
    let dir = Some("dir".to_string());

    assert_eq!(
        expand(&Node::Bookmark("b".to_string()), &NodeData::Bookmark(cs(1))),
        Ok(vec![
            edge(EdgeType::BookmarkToBonsaiChangeset, Node::BonsaiChangeset(cs(1))),
            edge(EdgeType::BookmarkToBonsaiHgMapping, Node::BonsaiHgMapping(cs(1))),
        ])
    );
    assert_eq!(
        expand(
            &Node::BonsaiChangeset(cs(1)),
            &NodeData::BonsaiChangeset(BonsaiChangeset {
                parents: vec![cs(2), cs(3)],
                file_changes: vec![content(8), content(9)],
            })
        ),
        Ok(vec![
            edge(EdgeType::BonsaiChangesetToBonsaiParent, Node::BonsaiChangeset(cs(2))),
            edge(EdgeType::BonsaiChangesetToBonsaiParent, Node::BonsaiChangeset(cs(3))),
            edge(EdgeType::BonsaiChangesetToBonsaiHgMapping, Node::BonsaiHgMapping(cs(1))),
            edge(EdgeType::BonsaiChangesetToFileContent, Node::FileContent(content(8))),
            edge(EdgeType::BonsaiChangesetToFileContent, Node::FileContent(content(9))),
        ])
    );
    assert_eq!(
        expand(&Node::BonsaiHgMapping(cs(1)), &NodeData::BonsaiHgMapping(hg)),
        Ok(vec![edge(EdgeType::BonsaiHgMappingToHgChangeset, Node::HgChangeset(hg))])
    );
    assert_eq!(
        expand(&Node::HgBonsaiMapping(hg), &NodeData::HgBonsaiMapping(Some(cs(1)))),
        Ok(vec![edge(
            EdgeType::HgBonsaiMappingToBonsaiChangeset,
            Node::BonsaiChangeset(cs(1))
        )])
    );
    assert_eq!(
        expand(&Node::HgBonsaiMapping(hg), &NodeData::HgBonsaiMapping(None)),
        Ok(vec![])
    );
    assert_eq!(
        expand(
            &Node::HgChangeset(hg),
            &NodeData::HgChangeset(HgBlobChangeset {
                manifestid: HgManifestId([3; 20]),
                parents: vec![HgChangesetId([5; 20])],
            })
        ),
        Ok(vec![
            edge(
                EdgeType::HgChangesetToHgManifest,
                Node::HgManifest(None, HgManifestId([3; 20]))
            ),
            edge(EdgeType::HgChangesetToHgParent, Node::HgChangeset(HgChangesetId([5; 20]))),
        ])
    );
    assert_eq!(
        expand(
            &Node::HgFileEnvelope(file),
            &NodeData::HgFileEnvelope(HgFileEnvelope {
                content_id: content(8),
                content_size: 1
            })
        ),
        Ok(vec![edge(
            EdgeType::HgFileEnvelopeToFileContent,
            Node::FileContent(content(8))
        )])
    );
    assert_eq!(
        expand(
            &Node::HgFileNode(dir.clone(), file),
            &NodeData::HgFileNode(Some(FilenodeInfo {
                p1: Some(HgFileNodeId([5; 20])),
                p2: None,
                copyfrom: Some(("old/name".to_string(), HgFileNodeId([6; 20]))),
                linknode: hg,
            }))
        ),
        Ok(vec![
            edge(EdgeType::HgLinkNodeToHgChangeset, Node::HgChangeset(hg)),
            edge(EdgeType::HgLinkNodeToHgBonsaiMapping, Node::HgBonsaiMapping(hg)),
            edge(
                EdgeType::HgFileNodeToHgParentFileNode,
                Node::HgFileNode(dir.clone(), HgFileNodeId([5; 20]))
            ),
            edge(
                EdgeType::HgFileNodeToHgCopyfromFileNode,
                Node::HgFileNode(Some("old/name".to_string()), HgFileNodeId([6; 20]))
            ),
        ])
    );
    assert_eq!(
        expand(&Node::HgFileNode(dir.clone(), file), &NodeData::HgFileNode(None)),
        Ok(vec![])
    );
    assert_eq!(
        expand(
            &Node::FileContent(content(8)),
            &NodeData::FileContent(FileContentData::Consumed(0))
        ),
        Ok(vec![edge(
            EdgeType::FileContentToFileContentMetadata,
            Node::FileContentMetadata(content(8))
        )])
    );
    assert_eq!(
        expand(
            &Node::FileContentMetadata(content(8)),
            &NodeData::FileContentMetadata(ContentMetadata {
                total_size: 1,
                content_id: content(8),
                sha1: [1; 20],
                sha256: [2; 32],
                git_sha1: [3; 20],
            })
        ),
        Ok(vec![
            edge(
                EdgeType::FileContentMetadataToSha1Alias,
                Node::AliasContentMapping(Alias::Sha1([1; 20]))
            ),
            edge(
                EdgeType::FileContentMetadataToSha256Alias,
                Node::AliasContentMapping(Alias::Sha256([2; 32]))
            ),
            edge(
                EdgeType::FileContentMetadataToGitSha1Alias,
                Node::AliasContentMapping(Alias::GitSha1([3; 20]))
            ),
        ])
    );
    assert_eq!(
        expand(
            &Node::AliasContentMapping(Alias::Sha1([1; 20])),
            &NodeData::AliasContentMapping(content(8))
        ),
        Ok(vec![edge(
            EdgeType::AliasContentMappingToFileContent,
            Node::FileContent(content(8))
        )])
    );
}

#[test]
fn manifest_entries_get_their_paths() {
    let manifest = NodeData::HgManifest(HgManifest {
        entries: vec![file_entry("a.txt", 1), dir_entry("sub", 2)],
    });
    assert_eq!(
        expand(&Node::HgManifest(None, HgManifestId([9; 20])), &manifest),
        Ok(vec![
            edge(
                EdgeType::HgManifestToHgFileEnvelope,
                Node::HgFileEnvelope(HgFileNodeId([1; 20]))
            ),
            edge(
                EdgeType::HgManifestToHgFileNode,
                Node::HgFileNode(Some("a.txt".to_string()), HgFileNodeId([1; 20]))
            ),
            edge(
                EdgeType::HgManifestToChildHgManifest,
                Node::HgManifest(Some("sub".to_string()), HgManifestId([2; 20]))
            ),
        ])
    );
    assert_eq!(
        expand(
            &Node::HgManifest(Some("top/mid".to_string()), HgManifestId([9; 20])),
            &manifest
        ),
        Ok(vec![
            edge(
                EdgeType::HgManifestToHgFileEnvelope,
                Node::HgFileEnvelope(HgFileNodeId([1; 20]))
            ),
            edge(
                EdgeType::HgManifestToHgFileNode,
                Node::HgFileNode(Some("top/mid/a.txt".to_string()), HgFileNodeId([1; 20]))
            ),
            edge(
                EdgeType::HgManifestToChildHgManifest,
                Node::HgManifest(Some("top/mid/sub".to_string()), HgManifestId([2; 20]))
            ),
        ])
    );
    assert_eq!(
        expand(
            &Node::HgManifest(None, HgManifestId([9; 20])),
            &NodeData::HgManifest(HgManifest { entries: vec![] })
        ),
        Ok(vec![])
    );
}

#[test]
fn expansion_errors() {
    let nameless = NodeData::HgManifest(HgManifest {
        entries: vec![file_entry("a.txt", 1), dir_entry("", 2)],
    });
    assert_eq!(
        expand(&Node::HgManifest(None, HgManifestId([9; 20])), &nameless),
        Err(ExpansionError::InvalidManifest)
    );
    assert_eq!(
        expand(&Node::Bookmark("b".to_string()), &nameless),
        Err(ExpansionError::PayloadMismatch)
    );
    assert_eq!(
        expand(&Node::FileContent(content(1)), &NodeData::AliasContentMapping(content(1))),
        Err(ExpansionError::PayloadMismatch)
    );
    assert_eq!(
        expand(&Node::BonsaiHgMapping(cs(1)), &NodeData::Bookmark(cs(1))),
        Err(ExpansionError::PayloadMismatch)
    );
}

#[test]
fn every_expanded_edge_fits_the_schema() {
    let cases: Vec<(Node, NodeData)> = vec![
        (Node::Bookmark("b".to_string()), NodeData::Bookmark(cs(1))),
        (
            Node::BonsaiChangeset(cs(1)),
            NodeData::BonsaiChangeset(BonsaiChangeset {
                parents: vec![cs(2)],
                file_changes: vec![content(8)],
            }),
        ),
        (
            Node::HgManifest(Some("d".to_string()), HgManifestId([9; 20])),
            NodeData::HgManifest(HgManifest {
                entries: vec![file_entry("a", 1), dir_entry("s", 2)],
            }),
        ),
        (
            Node::HgFileNode(None, HgFileNodeId([4; 20])),
            NodeData::HgFileNode(Some(FilenodeInfo {
                p1: Some(HgFileNodeId([5; 20])),
                p2: Some(HgFileNodeId([7; 20])),
                copyfrom: None,
                linknode: HgChangesetId([2; 20]),
            })),
        ),
    ];
    for (node, data) in cases {
        let edges = expand(&node, &data).unwrap();
        assert!(!edges.is_empty());
        for e in edges {
            assert_eq!(e.label.incoming_type(), Some(node.get_type()));
            assert_eq!(e.label.outgoing_type(), e.target.get_type());
        }
    }
}

#[test]
fn a_stream_hands_out_its_chunks_in_order() {
    let mut data = FileContentData::unread(vec![vec![1, 2, 3], vec![], vec![4]]);
    assert_eq!(data.next_chunk(), Some(vec![1, 2, 3]));
    assert!(!data.is_consumed());
    assert_eq!(data.next_chunk(), Some(vec![]));
    assert_eq!(data.next_chunk(), Some(vec![4]));
    assert!(!data.is_consumed());
    assert_eq!(data.next_chunk(), None);
    assert!(matches!(data, FileContentData::Consumed(4)));
    assert_eq!(data.next_chunk(), None);
    assert!(matches!(data, FileContentData::Consumed(4)));

    let mut stream = ChunkStream::new(vec![vec![9; 7], vec![8; 2]]);
    assert_eq!(stream.next_chunk(), Some(vec![9; 7]));
    assert_eq!(stream.next_chunk(), Some(vec![8; 2]));
    assert_eq!(stream.next_chunk(), None);
    assert_eq!(stream.next_chunk(), None);

    // what is left after a part was pulled is measured from the start
    let mut partly = FileContentData::unread(vec![vec![1, 2, 3], vec![4, 5]]);
    assert_eq!(partly.next_chunk(), Some(vec![1, 2, 3]));
    assert_eq!(partly.drain(), 5);
    assert!(matches!(partly, FileContentData::Consumed(5)));
}

#[test]
fn a_stream_takes_chunks_as_they_arrive() {
    let mut content = FileContentData::unread(vec![]);
    for chunk in [vec![1u8, 2, 3], vec![], vec![4, 5]] {
        assert!(content.feed(chunk.clone()));
        assert_eq!(content.next_chunk(), Some(chunk));
        assert!(!content.is_consumed());
    }
    assert_eq!(content.next_chunk(), None);
    assert!(matches!(content, FileContentData::Consumed(5)));
    // what is consumed takes no more
    assert!(!content.feed(vec![6]));
    assert!(matches!(content, FileContentData::Consumed(5)));
    assert_eq!(content.drain(), 5);

    let mut stream = ChunkStream::new(vec![vec![1]]);
    stream.feed(vec![2, 2]);
    stream.feed(vec![3, 3, 3]);
    assert_eq!(stream.next_chunk(), Some(vec![1]));
    assert_eq!(stream.next_chunk(), Some(vec![2, 2]));
    stream.feed(vec![4]);
    assert_eq!(stream.next_chunk(), Some(vec![3, 3, 3]));
    assert_eq!(stream.next_chunk(), Some(vec![4]));
    assert_eq!(stream.next_chunk(), None);
}

#[test]
fn the_walk_says_which_nodes_it_samples() {
    let args = SamplingArgs {
        sample_rate: Some(2),
        sample_offset: 0,
        exclude_sample_node_type: vec![],
        include_sample_node_type: vec![],
        sample_path_regex: None,
    };
    let mut cfg = everything(lenient());
    cfg.sampling = args.parse_args(1).unwrap();
    let mut walk = Walk::new(cfg);
    let mut even = [0u8; 32];
    even[0] = 2;
    let mut odd = [0u8; 32];
    odd[0] = 3;
    assert!(walk.seed(&[
        Node::FileContent(ContentId(even)),
        Node::FileContent(ContentId(odd)),
    ]));
    assert!(walk.is_sampled(0));
    assert!(!walk.is_sampled(1));
    assert!(!walk.is_sampled(2));
}

#[test]
fn a_stream_is_read_once() {
    let mut data = FileContentData::unread(vec![vec![1, 2, 3], vec![], vec![4]]);
    assert!(!data.is_consumed());
    assert_eq!(data.drain(), 4);
    assert!(data.is_consumed());
    assert!(matches!(data, FileContentData::Consumed(4)));
    assert_eq!(data.drain(), 4);
    let mut empty = FileContentData::unread(vec![]);
    assert_eq!(empty.drain(), 0);
    assert!(matches!(empty, FileContentData::Consumed(0)));
}

#[test]
fn counters_count_and_stay_full() {
    let mut stats = WalkStats::new();
    assert_eq!(
        stats.node_stats(NodeType::HgManifest),
        NodeTally {
            count: 0,
            bytes: 0,
            errors: 0
        }
    );
    stats.count_node(NodeType::HgManifest);
    stats.count_node(NodeType::HgManifest);
    stats.count_error(NodeType::HgManifest);
    stats.count_bytes(NodeType::HgManifest, 10);
    stats.count_bytes(NodeType::HgManifest, u64::MAX - 5);
    stats.count_edge(EdgeType::HgManifestToChildHgManifest);
    assert_eq!(
        stats.node_stats(NodeType::HgManifest),
        NodeTally {
            count: 2,
            bytes: u64::MAX,
            errors: 1
        }
    );
    assert_eq!(stats.node_stats(NodeType::HgFileNode).count, 0);
    assert_eq!(stats.edge_count(EdgeType::HgManifestToChildHgManifest), 1);
    assert_eq!(stats.edge_count(EdgeType::HgManifestToHgFileNode), 0);
}

#[test]
fn the_visited_set_holds_each_node_once() {
    let mut set = VisitedSet::new();
    assert_eq!(set.len(), 0);
    // the same hash under several kinds and paths: one fingerprint, many nodes
    let nodes = vec![
        Node::BonsaiChangeset(cs(1)),
        Node::BonsaiHgMapping(cs(1)),
        Node::FileContent(content(1)),
        Node::HgManifest(None, HgManifestId([1; 20])),
        Node::HgManifest(Some("a".to_string()), HgManifestId([1; 20])),
        Node::HgManifest(Some("b".to_string()), HgManifestId([1; 20])),
        Node::Bookmark("a".to_string()),
        Node::BonsaiChangeset(cs(2)),
    ];
    for (i, node) in nodes.iter().enumerate() {
        assert_eq!(set.position(node), None);
        set.push_new(node.clone());
        assert_eq!(set.len(), i + 1);
        assert_eq!(set.position(node), Some(i));
        assert_eq!(set.get(i), node);
    }
    for (i, node) in nodes.iter().enumerate() {
        assert_eq!(set.position(node), Some(i));
    }
    assert_eq!(set.position(&Node::BonsaiChangeset(cs(3))), None);
    assert_eq!(set.position(&Node::FileContentMetadata(content(1))), None);
    assert_eq!(
        set.position(&Node::HgManifest(Some("c".to_string()), HgManifestId([1; 20]))),
        None
    );
}

#[test]
fn a_wide_walk_visits_every_node_once() {
    // a chain of commits, each with the same thousand parents
    let load = |node: &Node| match node {
        Node::BonsaiChangeset(id) => {
            let parents = (0..=255u8)
                .flat_map(|a| (0..4u8).map(move |b| (a, b)))
                .map(|(a, b)| {
                    let mut bytes = [b; 32];
                    bytes[0] = a;
                    ChangesetId(bytes)
                })
                .filter(|p| p != id)
                .collect();
            Ok(NodeData::BonsaiChangeset(BonsaiChangeset {
                parents,
                file_changes: vec![],
            }))
        }
        _ => Err(LoadError::StorageUnavailable),
    };
    let mut walk = Walk::new(config(
        NodeTypeSet::from_kinds(&[NodeType::BonsaiChangeset]),
        EdgeTypeSet::from_kinds(&[EdgeType::BonsaiChangesetToBonsaiParent]),
        lenient(),
    ));
    assert!(walk.seed(&[Node::BonsaiChangeset(cs(0))]));
    let order = run(&mut walk, &load);
    assert_eq!(order.len(), 1024);
    let report = walk.finish();
    assert!(report.complete);
    assert_eq!(report.visited, 1024);
    assert_eq!(report.stats.node_stats(NodeType::BonsaiChangeset).count, 1024);
    assert_eq!(
        report.stats.edge_count(EdgeType::BonsaiChangesetToBonsaiParent),
        1024 * 1023
    );
}

fn names(list: &[&str]) -> Vec<String> {
    list.iter().map(|s| s.to_string()).collect()
}

#[test]
fn a_configuration_is_read_from_names() {
    let sampling = SamplingArgs {
        sample_rate: None,
        sample_offset: 3,
        exclude_sample_node_type: names(&["Bookmark"]),
        include_sample_node_type: vec![],
        sample_path_regex: None,
    };
    let config = WalkConfig::from_args(
        &names(&["Bookmark", "BonsaiChangeset"]),
        &names(&["RootToBookmark", "BookmarkToBonsaiChangeset", "BookmarkToBonsaiHgMapping"]),
        &sampling,
        100,
        lenient(),
    )
    .unwrap();
    assert_eq!(
        config.node_types,
        NodeTypeSet::from_kinds(&[NodeType::Bookmark, NodeType::BonsaiChangeset])
    );
    assert_eq!(
        config.edge_types,
        EdgeTypeSet::from_kinds(&[
            EdgeType::RootToBookmark,
            EdgeType::BookmarkToBonsaiChangeset,
            EdgeType::BookmarkToBonsaiHgMapping,
        ])
    );
    assert_eq!(config.sampling.sample_rate(), 100);
    assert_eq!(config.sampling.sample_offset(), 3);
    assert_eq!(config.policy, lenient());

    // the edge to a kind that is not visited is accepted, and dead
    let mut walk = Walk::new(config);
    assert!(walk.seed(&[Node::Bookmark("main".to_string())]));
    let order = run(&mut walk, &|node| match node {
        Node::Bookmark(_) => Ok(NodeData::Bookmark(cs(1))),
        _ => Err(LoadError::NotFound),
    });
    assert_eq!(
        order,
        vec![
            Node::Bookmark("main".to_string()),
            Node::BonsaiChangeset(cs(1))
        ]
    );
    let report = walk.finish();
    assert_eq!(report.stats.edge_count(EdgeType::BookmarkToBonsaiHgMapping), 0);
    assert_eq!(report.stats.edge_count(EdgeType::BookmarkToBonsaiChangeset), 1);
}

#[test]
fn a_fault_in_the_configuration_is_found_first() {
    let mut sampling = SamplingArgs {
        sample_rate: Some(0),
        sample_offset: 0,
        exclude_sample_node_type: vec![],
        include_sample_node_type: vec![],
        sample_path_regex: None,
    };
    let parse = |nodes: &[&str], edges: &[&str], sampling: &SamplingArgs| {
        WalkConfig::from_args(&names(nodes), &names(edges), sampling, 1, lenient()).err()
    };
    assert_eq!(
        parse(&["Nope"], &["Bogus"], &sampling),
        Some(ConfigError::UnknownNodeType("Nope".to_string()))
    );
    assert_eq!(
        parse(&["Bookmark"], &["RootToBookmark", "Bogus"], &sampling),
        Some(ConfigError::UnknownEdgeType("Bogus".to_string()))
    );
    assert_eq!(
        parse(&["Bookmark"], &["RootToBookmark"], &sampling),
        Some(ConfigError::ZeroSampleRate)
    );
    sampling.sample_rate = Some(1);
    assert_eq!(parse(&["Bookmark"], &["RootToBookmark"], &sampling), None);
}

#[test]
fn no_more_nodes_are_out_than_there_are_workers() {
    let mut policy = lenient();
    policy.workers = Some(2);
    let mut walk = Walk::new(everything(policy));
    let roots: Vec<Node> = (1..=4).map(|n| Node::FileContentMetadata(content(n))).collect();
    assert!(walk.seed(&roots));
    assert_eq!(walk.next_node(), Some(0));
    assert_eq!(walk.next_node(), Some(1));
    assert_eq!(walk.next_node(), None);
    assert_eq!(walk.in_flight(), 2);
    assert_eq!(walk.frontier_len(), 2);
    assert!(walk.complete(1, Err(LoadError::StorageUnavailable)));
    assert_eq!(walk.next_node(), Some(2));
    assert_eq!(walk.next_node(), None);
    assert!(walk.complete(0, Err(LoadError::StorageUnavailable)));
    assert!(walk.complete(2, Err(LoadError::StorageUnavailable)));
    assert_eq!(walk.next_node(), Some(3));
    assert_eq!(walk.state(), WalkState::Running);
    assert!(walk.complete(3, Err(LoadError::StorageUnavailable)));
    assert_eq!(walk.state(), WalkState::Draining);

    policy.workers = Some(0);
    let mut idle = Walk::new(everything(policy));
    assert!(idle.seed(&roots));
    assert_eq!(idle.next_node(), None);
    assert_eq!(idle.state(), WalkState::Running);
}

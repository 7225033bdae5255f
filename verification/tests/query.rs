use walker::ids::{ChangesetId, HgChangesetId, TreeId};
use walker::node::Node;
use walker::query::{
    as_signed, bookmark_prefix, bookmark_root, commit_not_found, find_hg_id, into_response,
    invalid_request, list_limit, map_commit_identities, map_commit_identity, path_response,
    repo_not_found, tree_list_response, tree_not_found, tree_page, unknown_tree_specifier, wants,
    ChangesetSpecifier, CommitId, CommitIdentityScheme, CommitPathInfoResponse, EntryInfo,
    EntryType, FileInfo, FileMetadata, FileType, PathEntry, RequestError, RequestErrorKind,
    TreeEntry, TreeEntryResponse, TreeInfo, TreeListResponse, TreeSummary, MAX_LIMIT,
};
use walker::reload::{repo_message, seeded_version, PeriodicReload, Reloaded};
use walker::text::{decimal, hex};

#[test]
fn decimal_numerals() {
    assert_eq!(decimal(0), "0");
    assert_eq!(decimal(7), "7");
    assert_eq!(decimal(10), "10");
    assert_eq!(decimal(1000), "1000");
    assert_eq!(decimal(-1), "-1");
    assert_eq!(decimal(-120), "-120");
    assert_eq!(decimal(i64::MAX), "9223372036854775807");
    assert_eq!(decimal(i64::MIN), "-9223372036854775808");
    for n in [-1001i64, -99, -10, -9, 9, 11, 99, 100, 101, 65535, 1234567890] {
        assert_eq!(decimal(n), n.to_string());
    }
}

#[test]
fn hexadecimal_dumps() {
    assert_eq!(hex(&[]), "");
    assert_eq!(hex(&[0x00]), "00");
    assert_eq!(hex(&[0x0f, 0xf0, 0xa5]), "0ff0a5");
    assert_eq!(hex(b"abc"), "616263");
    let all: Vec<u8> = (0..=255).collect();
    let want: String = all.iter().map(|b| format!("{:02x}", b)).collect();
    assert_eq!(hex(&all), want);
}

#[test]
fn commit_id_schemes() {
    assert_eq!(CommitId::Bonsai(vec![1]).scheme(), CommitIdentityScheme::Bonsai);
    assert_eq!(CommitId::Hg(vec![1]).scheme(), CommitIdentityScheme::Hg);
    assert_eq!(CommitId::Git(vec![1]).scheme(), CommitIdentityScheme::Git);
    assert_eq!(CommitId::GlobalRev(5).scheme(), CommitIdentityScheme::GlobalRev);
    assert_eq!(CommitId::UnknownField(9).scheme(), CommitIdentityScheme::Unknown(9));
    assert_eq!(CommitIdentityScheme::Bonsai.to_string(), "BONSAI");
    assert_eq!(CommitIdentityScheme::Hg.to_string(), "HG");
    assert_eq!(CommitIdentityScheme::Git.to_string(), "GIT");
    assert_eq!(CommitIdentityScheme::GlobalRev.to_string(), "GLOBAL_REV");
    assert_eq!(CommitIdentityScheme::Unknown(-3).to_string(), "-3");
}

#[test]
fn commit_ids_as_text() {
    assert_eq!(CommitId::Bonsai(vec![0xde, 0xad]).to_string(), "dead");
    assert_eq!(CommitId::Hg(vec![0xbe, 0xef, 0x01]).to_string(), "beef01");
    assert_eq!(CommitId::Git(vec![]).to_string(), "");
    assert_eq!(CommitId::GlobalRev(1234).to_string(), "1234");
    assert_eq!(CommitId::UnknownField(17).to_string(), "unknown id type (17)");
}

#[test]
fn request_errors() {
    assert_eq!(
        invalid_request("no such thing"),
        RequestError {
            kind: RequestErrorKind::InvalidRequest,
            reason: "no such thing".to_string()
        }
    );
    assert_eq!(
        repo_not_found("fbsource"),
        RequestError {
            kind: RequestErrorKind::RepoNotFound,
            reason: "repo not found (fbsource)".to_string()
        }
    );
    assert_eq!(
        commit_not_found(&ChangesetSpecifier::Bonsai(ChangesetId([0xab; 32]))),
        RequestError {
            kind: RequestErrorKind::CommitNotFound,
            reason: format!("commit not found (changeset {})", "ab".repeat(32)),
        }
    );
    assert_eq!(
        commit_not_found(&ChangesetSpecifier::Hg(HgChangesetId([0x01; 20]))),
        RequestError {
            kind: RequestErrorKind::CommitNotFound,
            reason: format!("commit not found (hg changeset {})", "01".repeat(20)),
        }
    );
    assert_eq!(
        tree_not_found(&TreeId([0x10; 32])),
        RequestError {
            kind: RequestErrorKind::TreeNotFound,
            reason: format!("tree not found ({})", "10".repeat(32)),
        }
    );
}

#[test]
fn commit_ids_are_checked() {
    assert_eq!(
        ChangesetSpecifier::from_request(&CommitId::Bonsai(vec![7; 32])),
        Ok(ChangesetSpecifier::Bonsai(ChangesetId([7; 32])))
    );
    assert_eq!(
        ChangesetSpecifier::from_request(&CommitId::Hg(vec![7; 20])),
        Ok(ChangesetSpecifier::Hg(HgChangesetId([7; 20])))
    );
    assert_eq!(
        ChangesetSpecifier::from_request(&CommitId::Bonsai(vec![7; 2])),
        Err(invalid_request(
            "invalid commit id (scheme=BONSAI 0707): invalid blake2 input: need exactly 32 bytes"
        ))
    );
    assert_eq!(
        ChangesetSpecifier::from_request(&CommitId::Hg(vec![0xff; 1])),
        Err(invalid_request(
            "invalid commit id (scheme=HG ff): invalid sha-1 input: need exactly 20 bytes"
        ))
    );
    assert_eq!(
        ChangesetSpecifier::from_request(&CommitId::Hg(vec![1; 32]))
            .unwrap_err()
            .kind,
        RequestErrorKind::InvalidRequest
    );
    assert_eq!(
        ChangesetSpecifier::from_request(&CommitId::Git(vec![7; 20])),
        Err(invalid_request("unsupported commit identity scheme (GIT)"))
    );
    assert_eq!(
        ChangesetSpecifier::from_request(&CommitId::GlobalRev(5)),
        Err(invalid_request("unsupported commit identity scheme (GLOBAL_REV)"))
    );
    assert_eq!(
        ChangesetSpecifier::from_request(&CommitId::UnknownField(12)),
        Err(invalid_request("unsupported commit identity scheme (12)"))
    );
}

#[test]
fn tree_ids_are_checked() {
    assert_eq!(TreeId::from_request(&vec![3; 32]), Ok(TreeId([3; 32])));
    assert_eq!(
        TreeId::from_request(&vec![3; 3]),
        Err(invalid_request(
            "invalid tree id (030303): invalid blake2 input: need exactly 32 bytes"
        ))
    );
}

#[test]
fn listing_limits() {
    assert_eq!(MAX_LIMIT, 1000);
    assert_eq!(list_limit(0), Ok(None));
    assert_eq!(list_limit(1), Ok(Some(1)));
    assert_eq!(list_limit(999), Ok(Some(999)));
    assert_eq!(list_limit(1000), Ok(Some(1000)));
    assert_eq!(
        list_limit(1001),
        Err(invalid_request("limit (1001) out of range (0..1000)"))
    );
    assert_eq!(
        list_limit(-1),
        Err(invalid_request("limit (-1) out of range (0..1000)"))
    );
    assert!(list_limit(i64::MIN).is_err());
    assert!(list_limit(i64::MAX).is_err());
}

#[test]
fn empty_prefix_is_no_prefix() {
    assert_eq!(bookmark_prefix(String::new()), None);
    assert_eq!(bookmark_prefix("rel/".to_string()), Some("rel/".to_string()));
}

#[test]
fn identities_in_the_schemes_asked_for() {
    let id = ChangesetId([1; 32]);
    let hg = HgChangesetId([2; 20]);
    let both = [CommitIdentityScheme::Bonsai, CommitIdentityScheme::Hg];
    assert_eq!(
        map_commit_identity(&id, Some(hg), &both),
        vec![CommitId::Bonsai(vec![1; 32]), CommitId::Hg(vec![2; 20])]
    );
    assert_eq!(
        map_commit_identity(&id, None, &both),
        vec![CommitId::Bonsai(vec![1; 32])]
    );
    assert_eq!(
        map_commit_identity(&id, Some(hg), &[CommitIdentityScheme::Git]),
        vec![CommitId::Bonsai(vec![1; 32])]
    );
    assert_eq!(
        map_commit_identity(&id, Some(hg), &[]),
        vec![CommitId::Bonsai(vec![1; 32])]
    );
    assert!(wants(&both, CommitIdentityScheme::Hg));
    assert!(!wants(&both, CommitIdentityScheme::Git));
    assert!(!wants(&[], CommitIdentityScheme::Bonsai));
    assert!(wants(
        &[CommitIdentityScheme::Unknown(4)],
        CommitIdentityScheme::Unknown(4)
    ));
}

#[test]
fn file_types_as_entry_types() {
    assert_eq!(FileType::Regular.into_response(), EntryType::File);
    assert_eq!(FileType::Executable.into_response(), EntryType::Exec);
    assert_eq!(FileType::Symlink.into_response(), EntryType::Link);
}

#[test]
fn pages_of_a_listing() {
    let entries: Vec<u32> = (0..10).collect();
    for (offset, limit) in [
        (0i64, 3i64),
        (2, 3),
        (8, 5),
        (9, 1),
        (10, 1),
        (11, 1),
        (0, 0),
        (3, 0),
        (0, 10),
        (0, 100),
        (-1, 3),
        (2, -1),
        (i64::MAX, 1),
        (1, i64::MAX),
        (i64::MIN, i64::MIN),
    ] {
        let (start, end) = tree_page(entries.len(), offset, limit);
        let want: Vec<u32> = entries
            .iter()
            .skip(offset as usize)
            .take(limit as usize)
            .cloned()
            .collect();
        assert_eq!(entries[start..end].to_vec(), want);
    }
    assert_eq!(tree_page(10, 2, 3), (2, 5));
    assert_eq!(tree_page(10, 8, 5), (8, 10));
    assert_eq!(tree_page(0, 0, 5), (0, 0));
}

#[test]
fn roots_from_lookups() {
    assert_eq!(bookmark_root("main"), Node::Bookmark("main".to_string()));
    assert_eq!(
        ChangesetSpecifier::Bonsai(ChangesetId([1; 32])).root(),
        Node::BonsaiChangeset(ChangesetId([1; 32]))
    );
    assert_eq!(
        ChangesetSpecifier::Hg(HgChangesetId([1; 20])).root(),
        Node::HgChangeset(HgChangesetId([1; 20]))
    );
}

#[test]
fn a_repository_without_a_version_was_not_seeded() {
    assert_eq!(seeded_version(7, Some(3u64)), Ok(3));
    assert_eq!(
        seeded_version::<u64>(7, None),
        Err("repo 7: segmented changelog metadata not found, maybe repo is not seeded".to_string())
    );
    assert_eq!(
        repo_message(12, "failed to load iddag"),
        "repo 12: failed to load iddag"
    );
    assert_eq!(repo_message(-1, ""), "repo -1: ");
}

#[test]
fn a_failed_reload_keeps_what_is_served() {
    let mut reload = PeriodicReload::start("first".to_string());
    assert_eq!(reload.current(), "first");
    assert_eq!(reload.updates(), 0);
    assert_eq!(reload.reloaded(None), Reloaded::Kept);
    assert_eq!(reload.current(), "first");
    assert_eq!(reload.updates(), 1);
    assert_eq!(reload.reloaded(Some("second".to_string())), Reloaded::Stored);
    assert_eq!(reload.current(), "second");
    assert_eq!(reload.reloaded(None), Reloaded::Kept);
    assert_eq!(reload.current(), "second");
    assert_eq!(reload.updates(), 3);
}

#[test]
fn identities_of_several_commits() {
    let a = ChangesetId([1; 32]);
    let b = ChangesetId([2; 32]);
    let c = ChangesetId([3; 32]);
    let known = vec![
        (a, HgChangesetId([0x0a; 20])),
        (c, HgChangesetId([0x0c; 20])),
        (a, HgChangesetId([0x1a; 20])),
    ];
    // the last pair for a commit is the one that counts
    assert_eq!(find_hg_id(&known, &a), Some(HgChangesetId([0x1a; 20])));
    assert_eq!(find_hg_id(&known, &b), None);
    assert_eq!(find_hg_id(&known, &c), Some(HgChangesetId([0x0c; 20])));
    assert_eq!(find_hg_id(&[], &a), None);
    let both = [CommitIdentityScheme::Hg, CommitIdentityScheme::Bonsai];
    assert_eq!(
        map_commit_identities(&vec![a, b, c, a], &known, &both),
        vec![
            vec![CommitId::Bonsai(vec![1; 32]), CommitId::Hg(vec![0x1a; 20])],
            vec![CommitId::Bonsai(vec![2; 32])],
            vec![CommitId::Bonsai(vec![3; 32]), CommitId::Hg(vec![0x0c; 20])],
            vec![CommitId::Bonsai(vec![1; 32]), CommitId::Hg(vec![0x1a; 20])],
        ]
    );
    assert_eq!(
        map_commit_identities(&vec![a, b], &known, &[CommitIdentityScheme::Bonsai]),
        vec![
            vec![CommitId::Bonsai(vec![1; 32])],
            vec![CommitId::Bonsai(vec![2; 32])],
        ]
    );
    assert_eq!(
        map_commit_identities(&vec![], &known, &both),
        Vec::<Vec<CommitId>>::new()
    );
}

fn summary(n: u8, files: u64, dirs: u64) -> TreeSummary {
    TreeSummary {
        id: vec![n; 32],
        simple_format_sha1: vec![n; 20],
        simple_format_sha256: vec![n + 1; 32],
        child_files_count: files,
        child_files_total_size: 1000,
        child_dirs_count: dirs,
        descendant_files_count: 70,
        descendant_files_total_size: u64::MAX,
    }
}

fn tree_info(n: u8, files: i64, dirs: i64) -> TreeInfo {
    TreeInfo {
        id: vec![n; 32],
        simple_format_sha1: vec![n; 20],
        simple_format_sha256: vec![n + 1; 32],
        child_files_count: files,
        child_files_total_size: 1000,
        child_dirs_count: dirs,
        descendant_files_count: 70,
        descendant_files_total_size: -1,
    }
}

fn metadata(n: u8) -> FileMetadata {
    FileMetadata {
        content_id: vec![n; 32],
        total_size: 12,
        sha1: vec![n; 20],
        sha256: vec![n; 32],
    }
}

fn file_info(n: u8) -> FileInfo {
    FileInfo {
        id: vec![n; 32],
        file_size: 12,
        content_sha1: vec![n; 20],
        content_sha256: vec![n; 32],
    }
}

#[test]
fn unsigned_numbers_read_as_signed() {
    assert_eq!(as_signed(0), 0);
    assert_eq!(as_signed(12), 12);
    assert_eq!(as_signed(i64::MAX as u64), i64::MAX);
    assert_eq!(as_signed(i64::MAX as u64 + 1), i64::MIN);
    assert_eq!(as_signed(u64::MAX), -1);
    for n in [1u64, 1 << 40, 1 << 63, (1 << 63) + 5, u64::MAX - 7] {
        assert_eq!(as_signed(n), n as i64);
    }
}

#[test]
fn the_answer_to_an_unknown_tree_specifier() {
    assert_eq!(
        unknown_tree_specifier(5),
        invalid_request("tree specifier type not supported: 5")
    );
    assert_eq!(
        unknown_tree_specifier(-2),
        invalid_request("tree specifier type not supported: -2")
    );
}

#[test]
fn summaries_and_metadata_as_answers() {
    assert_eq!(summary(3, 4, 5).into_response(), tree_info(3, 4, 5));
    assert_eq!(metadata(6).into_response(), file_info(6));
}

#[test]
fn directory_entries_as_answers() {
    assert_eq!(
        into_response(("sub".to_string(), TreeEntry::Directory(summary(3, 4, 5)))),
        TreeEntryResponse {
            name: "sub".to_string(),
            type_: EntryType::Tree,
            info: EntryInfo::Tree(tree_info(3, 4, 5)),
        }
    );
    for (file_type, entry_type) in [
        (FileType::Regular, EntryType::File),
        (FileType::Executable, EntryType::Exec),
        (FileType::Symlink, EntryType::Link),
    ] {
        assert_eq!(
            into_response(("f".to_string(), TreeEntry::File(metadata(6), file_type))),
            TreeEntryResponse {
                name: "f".to_string(),
                type_: entry_type,
                info: EntryInfo::File(file_info(6)),
            }
        );
    }
}

#[test]
fn what_is_at_a_path() {
    assert_eq!(
        path_response(PathEntry::NotPresent),
        CommitPathInfoResponse {
            exists: false,
            type_: None,
            info: None
        }
    );
    assert_eq!(
        path_response(PathEntry::Tree(summary(3, 4, 5))),
        CommitPathInfoResponse {
            exists: true,
            type_: Some(EntryType::Tree),
            info: Some(EntryInfo::Tree(tree_info(3, 4, 5))),
        }
    );
    assert_eq!(
        path_response(PathEntry::File(metadata(6), FileType::Executable)),
        CommitPathInfoResponse {
            exists: true,
            type_: Some(EntryType::Exec),
            info: Some(EntryInfo::File(file_info(6))),
        }
    );
}

fn listing(n: u8) -> Vec<(String, TreeEntry)> {
    (0..n)
        .map(|i| {
            let entry = if i % 2 == 0 {
                TreeEntry::File(metadata(i), FileType::Regular)
            } else {
                TreeEntry::Directory(summary(i, 1, 1))
            };
            (format!("entry{}", i), entry)
        })
        .collect()
}

#[test]
fn a_listing_is_answered_by_the_page() {
    for (offset, limit) in [
        (0i64, 3i64),
        (2, 3),
        (4, 10),
        (5, 1),
        (6, 1),
        (0, 0),
        (0, 6),
        (-1, 3),
        (2, -1),
        (i64::MAX, i64::MAX),
    ] {
        let response = tree_list_response(Some((summary(9, 4, 2), listing(6))), offset, limit);
        let want: Vec<TreeEntryResponse> = listing(6)
            .into_iter()
            .skip(offset as usize)
            .take(limit as usize)
            .map(into_response)
            .collect();
        assert_eq!(response.entries, want);
        // the count is that of the directory, not of the page
        assert_eq!(response.count, 6);
    }
    let page = tree_list_response(Some((summary(9, 4, 2), listing(6))), 1, 2);
    assert_eq!(page.entries.len(), 2);
    assert_eq!(page.entries[0].name, "entry1");
    assert_eq!(page.entries[0].type_, EntryType::Tree);
    assert_eq!(page.entries[1].name, "entry2");
    assert_eq!(page.entries[1].type_, EntryType::File);
}

#[test]
fn the_count_of_a_listing_comes_from_the_summary() {
    let response = tree_list_response(Some((summary(9, 40, 2), listing(3))), 0, 100);
    assert_eq!(response.count, 42);
    assert_eq!(response.entries.len(), 3);
    let response = tree_list_response(Some((summary(9, u64::MAX, 0), vec![])), 0, 100);
    assert_eq!(response.count, -1);
    let response = tree_list_response(Some((summary(9, u64::MAX, 3), vec![])), 0, 100);
    assert_eq!(response.count, 2);
    let response = tree_list_response(Some((summary(9, 1 << 63, 0), vec![])), 0, 100);
    assert_eq!(response.count, i64::MIN);
}

#[test]
fn what_is_no_directory_lists_nothing() {
    assert_eq!(
        tree_list_response(None, 0, 100),
        TreeListResponse {
            entries: vec![],
            count: 0
        }
    );
    assert_eq!(
        tree_list_response(None, 5, -1),
        TreeListResponse {
            entries: vec![],
            count: 0
        }
    );
}

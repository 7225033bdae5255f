//! Point lookups: the requests by which single items of a repository are
//! asked for, as far as they can be judged without the repository.
//!
//! A lookup names a commit by an identity in one of several schemes. What
//! is decided here is whether a request is well formed, which error answers
//! one that is not, and how an identity is shown. The answers to lookups are
//! also where a walk gets its roots from.

use vstd::prelude::*;
use vstd::string::StringExecFns;
use crate::ids::{ChangesetId, HgChangesetId, TreeId};
use crate::node::{Node, NodeId};
use crate::text::{decimal, decimal_text, hex, hex_text};

verus! {

/// The largest number of bookmarks that one request may ask for.
pub const MAX_LIMIT: i64 = 1000;

/// What kind of fault a request has.
#[derive(Clone, Copy, Debug, PartialEq, Eq, Structural)]
pub enum RequestErrorKind {
    InvalidRequest,
    RepoNotFound,
    CommitNotFound,
    TreeNotFound,
}

/// The answer to a request that cannot be served.
#[derive(Clone, Debug, PartialEq, Eq)]
pub struct RequestError {
    pub kind: RequestErrorKind,
    pub reason: String,
}

/// What a [`RequestError`] is in contracts.
pub struct RequestFault {
    pub kind: RequestErrorKind,
    pub reason: Seq<char>,
}

impl View for RequestError {
    type V = RequestFault;

    open spec fn view(&self) -> RequestFault {
        RequestFault { kind: self.kind, reason: self.reason@ }
    }
}

/// The schemes in which a commit can be named.
#[derive(Clone, Copy, Debug, PartialEq, Eq, Structural)]
pub enum CommitIdentityScheme {
    Bonsai,
    Hg,
    Git,
    GlobalRev,
    /// A scheme that this library does not know, by its number.
    Unknown(i32),
}

impl CommitIdentityScheme {
    /// The name of the scheme; for a scheme that is not known, its number.
    pub open spec fn spec_name(self) -> Seq<char> {
        match self {
            CommitIdentityScheme::Bonsai => "BONSAI"@,
            CommitIdentityScheme::Hg => "HG"@,
            CommitIdentityScheme::Git => "GIT"@,
            CommitIdentityScheme::GlobalRev => "GLOBAL_REV"@,
            CommitIdentityScheme::Unknown(number) => decimal_text(number as int),
        }
    }

    /// The name of the scheme; for a scheme that is not known, its number.
    pub fn to_string(&self) -> (name: String)
        ensures
            name@ == self.spec_name(),
    {
        match self {
            CommitIdentityScheme::Bonsai => String::from_str("BONSAI"),
            CommitIdentityScheme::Hg => String::from_str("HG"),
            CommitIdentityScheme::Git => String::from_str("GIT"),
            CommitIdentityScheme::GlobalRev => String::from_str("GLOBAL_REV"),
            CommitIdentityScheme::Unknown(number) => decimal(*number as i64),
        }
    }
}

/// The identity of a commit as a request gives it: unchecked bytes in one
/// of the hashed schemes, or a revision number.
#[derive(Clone, Debug, PartialEq, Eq)]
pub enum CommitId {
    Bonsai(Vec<u8>),
    Hg(Vec<u8>),
    Git(Vec<u8>),
    GlobalRev(i64),
    /// An identity in a scheme that this library does not know.
    UnknownField(i32),
}

impl CommitId {
    /// The scheme of the identity.
    pub open spec fn spec_scheme(self) -> CommitIdentityScheme {
        match self {
            CommitId::Bonsai(_) => CommitIdentityScheme::Bonsai,
            CommitId::Hg(_) => CommitIdentityScheme::Hg,
            CommitId::Git(_) => CommitIdentityScheme::Git,
            CommitId::GlobalRev(_) => CommitIdentityScheme::GlobalRev,
            CommitId::UnknownField(number) => CommitIdentityScheme::Unknown(number),
        }
    }

    /// The identity as shown: a hash as its hexadecimal dump, a revision
    /// number in decimal.
    pub open spec fn spec_text(self) -> Seq<char> {
        match self {
            CommitId::Bonsai(id) => hex_text(id@),
            CommitId::Hg(id) => hex_text(id@),
            CommitId::Git(id) => hex_text(id@),
            CommitId::GlobalRev(rev) => decimal_text(rev as int),
            CommitId::UnknownField(number) => "unknown id type ("@ + decimal_text(number as int)
                + ")"@,
        }
    }

    /// Returns the commit identity scheme of a commit ID.
    pub fn scheme(&self) -> (scheme: CommitIdentityScheme)
        ensures
            scheme == self.spec_scheme(),
    {
        match self {
            CommitId::Bonsai(_) => CommitIdentityScheme::Bonsai,
            CommitId::Hg(_) => CommitIdentityScheme::Hg,
            CommitId::Git(_) => CommitIdentityScheme::Git,
            CommitId::GlobalRev(_) => CommitIdentityScheme::GlobalRev,
            CommitId::UnknownField(number) => CommitIdentityScheme::Unknown(*number),
        }
    }

    /// Converts a commit ID to a string for display.
    pub fn to_string(&self) -> (text: String)
        ensures
            text@ == self.spec_text(),
    {
        match self {
            CommitId::Bonsai(id) => hex(id.as_slice()),
            CommitId::Hg(id) => hex(id.as_slice()),
            CommitId::Git(id) => hex(id.as_slice()),
            CommitId::GlobalRev(rev) => decimal(*rev),
            CommitId::UnknownField(number) => String::from_str("unknown id type (").concat(
                decimal(*number as i64).as_str(),
            ).concat(")"),
        }
    }
}

/// A commit named by a checked identity.
#[derive(Clone, Copy, Debug, PartialEq, Eq)]
pub enum ChangesetSpecifier {
    Bonsai(ChangesetId),
    Hg(HgChangesetId),
}

/// The answer to a request that is not well formed.
pub fn invalid_request(reason: &str) -> (error: RequestError)
    ensures
        error@ == (RequestFault { kind: RequestErrorKind::InvalidRequest, reason: reason@ }),
{
    RequestError { kind: RequestErrorKind::InvalidRequest, reason: reason.to_owned() }
}

/// The answer to a request for a repository that is not there.
pub fn repo_not_found(reponame: &str) -> (error: RequestError)
    ensures
        error@ == (RequestFault {
            kind: RequestErrorKind::RepoNotFound,
            reason: "repo not found ("@ + reponame@ + ")"@,
        }),
{
    RequestError {
        kind: RequestErrorKind::RepoNotFound,
        reason: String::from_str("repo not found (").concat(reponame).concat(")"),
    }
}

/// The answer to a request for a commit that is not there.
pub fn commit_not_found(commit: &ChangesetSpecifier) -> (error: RequestError)
    ensures
        error@ == (RequestFault {
            kind: RequestErrorKind::CommitNotFound,
            reason: "commit not found ("@ + commit.spec_text() + ")"@,
        }),
{
    RequestError {
        kind: RequestErrorKind::CommitNotFound,
        reason: String::from_str("commit not found (").concat(commit.to_string().as_str()).concat(
            ")",
        ),
    }
}

/// The answer to a request for a tree that is not there.
pub fn tree_not_found(tree: &TreeId) -> (error: RequestError)
    ensures
        error@ == (RequestFault {
            kind: RequestErrorKind::TreeNotFound,
            reason: "tree not found ("@ + hex_text(tree@) + ")"@,
        }),
{
    RequestError {
        kind: RequestErrorKind::TreeNotFound,
        reason: String::from_str("tree not found (").concat(hex(tree.0.as_slice()).as_str()).concat(
            ")",
        ),
    }
}

/// The reason given for a commit identity of the wrong length.
pub open spec fn invalid_commit_reason(commit: CommitId, need: Seq<char>) -> Seq<char> {
    "invalid commit id (scheme="@ + commit.spec_scheme().spec_name() + " "@ + commit.spec_text()
        + "): "@ + need
}

/// What a request's commit identity names, or the fault in it. An identity
/// in the content-addressed scheme has 32 bytes, one in the Mercurial scheme
/// has 20; commits cannot be named in any other scheme.
pub open spec fn specifier_of(commit: CommitId) -> Result<Seq<u8>, RequestFault> {
    match commit {
        CommitId::Bonsai(id) => if id@.len() == 32 {
            Ok(id@)
        } else {
            Err(
                RequestFault {
                    kind: RequestErrorKind::InvalidRequest,
                    reason: invalid_commit_reason(
                        commit,
                        "invalid blake2 input: need exactly 32 bytes"@,
                    ),
                },
            )
        },
        CommitId::Hg(id) => if id@.len() == 20 {
            Ok(id@)
        } else {
            Err(
                RequestFault {
                    kind: RequestErrorKind::InvalidRequest,
                    reason: invalid_commit_reason(
                        commit,
                        "invalid sha-1 input: need exactly 20 bytes"@,
                    ),
                },
            )
        },
        _ => Err(
            RequestFault {
                kind: RequestErrorKind::InvalidRequest,
                reason: "unsupported commit identity scheme ("@
                    + commit.spec_scheme().spec_name() + ")"@,
            },
        ),
    }
}

impl ChangesetSpecifier {
    /// The bytes of the identity.
    pub open spec fn bytes(self) -> Seq<u8> {
        match self {
            ChangesetSpecifier::Bonsai(id) => id@,
            ChangesetSpecifier::Hg(id) => id@,
        }
    }

    /// The specifier as shown.
    pub open spec fn spec_text(self) -> Seq<char> {
        match self {
            ChangesetSpecifier::Bonsai(id) => "changeset "@ + hex_text(id@),
            ChangesetSpecifier::Hg(id) => "hg changeset "@ + hex_text(id@),
        }
    }

    /// The specifier as shown.
    pub fn to_string(&self) -> (text: String)
        ensures
            text@ == self.spec_text(),
    {
        match self {
            ChangesetSpecifier::Bonsai(id) => String::from_str("changeset ").concat(
                hex(id.0.as_slice()).as_str(),
            ),
            ChangesetSpecifier::Hg(id) => String::from_str("hg changeset ").concat(
                hex(id.0.as_slice()).as_str(),
            ),
        }
    }

    /// Checks the commit identity of a request.
    pub fn from_request(commit: &CommitId) -> (checked: Result<ChangesetSpecifier, RequestError>)
        ensures
            match specifier_of(*commit) {
                Ok(bytes) => checked matches Ok(specifier) && specifier.bytes() == bytes && (
                specifier is Bonsai <==> *commit is Bonsai),
                Err(fault) => checked matches Err(error) && error@ == fault,
            },
    {
        match commit {
            CommitId::Bonsai(id) => match ChangesetId::from_bytes(id.as_slice()) {
                Some(cs_id) => Ok(ChangesetSpecifier::Bonsai(cs_id)),
                None => Err(
                    invalid_commit(commit, "invalid blake2 input: need exactly 32 bytes"),
                ),
            },
            CommitId::Hg(id) => match HgChangesetId::from_bytes(id.as_slice()) {
                Some(hg_cs_id) => Ok(ChangesetSpecifier::Hg(hg_cs_id)),
                None => Err(invalid_commit(commit, "invalid sha-1 input: need exactly 20 bytes")),
            },
            _ => Err(
                invalid_request(
                    String::from_str("unsupported commit identity scheme (").concat(
                        commit.scheme().to_string().as_str(),
                    ).concat(")").as_str(),
                ),
            ),
        }
    }

    /// The node that a walk of this one commit starts from.
    pub fn root(&self) -> (node: Node)
        ensures
            node@ == match *self {
                ChangesetSpecifier::Bonsai(id) => NodeId::BonsaiChangeset(id@),
                ChangesetSpecifier::Hg(id) => NodeId::HgChangeset(id@),
            },
    {
        match self {
            ChangesetSpecifier::Bonsai(id) => Node::BonsaiChangeset(*id),
            ChangesetSpecifier::Hg(id) => Node::HgChangeset(*id),
        }
    }
}

/// The answer to a request whose commit identity has the wrong length.
fn invalid_commit(commit: &CommitId, need: &str) -> (error: RequestError)
    ensures
        error@ == (RequestFault {
            kind: RequestErrorKind::InvalidRequest,
            reason: invalid_commit_reason(*commit, need@),
        }),
{
    let reason = String::from_str("invalid commit id (scheme=").concat(
        commit.scheme().to_string().as_str(),
    ).concat(" ").concat(commit.to_string().as_str()).concat("): ").concat(need);
    RequestError { kind: RequestErrorKind::InvalidRequest, reason }
}

impl TreeId {
    /// Checks the tree identity of a request: it has 32 bytes.
    pub fn from_request(tree_id: &Vec<u8>) -> (checked: Result<TreeId, RequestError>)
        ensures
            match checked {
                Ok(tree) => tree_id@.len() == 32 && tree@ == tree_id@,
                Err(error) => tree_id@.len() != 32 && error@ == (RequestFault {
                    kind: RequestErrorKind::InvalidRequest,
                    reason: "invalid tree id ("@ + hex_text(tree_id@)
                        + "): invalid blake2 input: need exactly 32 bytes"@,
                }),
            },
    {
        match TreeId::from_bytes(tree_id.as_slice()) {
            Some(tree) => Ok(tree),
            None => Err(
                invalid_request(
                    String::from_str("invalid tree id (").concat(
                        hex(tree_id.as_slice()).as_str(),
                    ).concat("): invalid blake2 input: need exactly 32 bytes").as_str(),
                ),
            ),
        }
    }
}

/// How many bookmarks a listing may return: no limit for 0, the number
/// itself from 1 up to [`MAX_LIMIT`], and any other number is a fault of the
/// request.
pub fn list_limit(limit: i64) -> (checked: Result<Option<u64>, RequestError>)
    ensures
        match checked {
            Ok(None) => limit == 0,
            Ok(Some(n)) => 1 <= limit <= MAX_LIMIT && n == limit,
            Err(error) => (limit < 0 || limit > MAX_LIMIT) && error@ == (RequestFault {
                kind: RequestErrorKind::InvalidRequest,
                reason: "limit ("@ + decimal_text(limit as int) + ") out of range (0.."@
                    + decimal_text(MAX_LIMIT as int) + ")"@,
            }),
        },
{
    if limit == 0 {
        Ok(None)
    } else if 1 <= limit && limit <= MAX_LIMIT {
        Ok(Some(limit as u64))
    } else {
        Err(
            invalid_request(
                String::from_str("limit (").concat(decimal(limit).as_str()).concat(
                    ") out of range (0..",
                ).concat(decimal(MAX_LIMIT).as_str()).concat(")").as_str(),
            ),
        )
    }
}

/// The prefix that a listing of bookmarks is narrowed to: none if the
/// request gives an empty one.
pub fn bookmark_prefix(prefix: String) -> (narrowed: Option<String>)
    ensures
        match narrowed {
            Some(p) => p@ == prefix@ && prefix@.len() > 0,
            None => prefix@.len() == 0,
        },
{
    if !prefix.as_str().is_empty() {
        Some(prefix)
    } else {
        None
    }
}

/// Whether `ids` are the identities of the commit `id` as a request is
/// answered with them: the identity in the content-addressed scheme first,
/// and after it the one in the Mercurial scheme, `hg_id`, if that scheme was
/// asked for and the commit has one.
pub open spec fn is_identity_list(
    ids: Seq<CommitId>,
    id: ChangesetId,
    hg_id: Option<HgChangesetId>,
    want_hg: bool,
) -> bool {
    &&& ids.len() == if want_hg && hg_id is Some {
        2int
    } else {
        1int
    }
    &&& ids[0] matches CommitId::Bonsai(bytes) && bytes@ == id@
    &&& ids.len() == 2 ==> (ids[1] matches CommitId::Hg(bytes) && bytes@ == hg_id.unwrap()@)
}

/// The Mercurial identity that `known` gives for the commit `id`: that of
/// the last pair for `id`, if there is one.
pub open spec fn hg_id_in(known: Seq<(ChangesetId, HgChangesetId)>, id: ChangesetId) -> Option<
    HgChangesetId,
>
    decreases known.len(),
{
    if known.len() == 0 {
        None
    } else if known.last().0@ == id@ {
        Some(known.last().1)
    } else {
        hg_id_in(known.drop_last(), id)
    }
}

/// The identities of a commit in the schemes that a request asks for. The
/// identity in the content-addressed scheme is always given; the one in the
/// Mercurial scheme is given if it was asked for and the commit has one.
pub fn map_commit_identity(
    id: &ChangesetId,
    hg_id: Option<HgChangesetId>,
    schemes: &[CommitIdentityScheme],
) -> (ids: Vec<CommitId>)
    ensures
        is_identity_list(ids@, *id, hg_id, schemes@.contains(CommitIdentityScheme::Hg)),
{
    let mut ids: Vec<CommitId> = Vec::new();
    ids.push(CommitId::Bonsai(bytes_of(id.0.as_slice())));
    if wants(schemes, CommitIdentityScheme::Hg) {
        match hg_id {
            Some(hg) => {
                ids.push(CommitId::Hg(bytes_of(hg.0.as_slice())));
            },
            None => {},
        }
    }
    ids
}

/// Looks up the Mercurial identity of the commit `id` among the pairs that
/// the repository gave.
pub fn find_hg_id(known: &[(ChangesetId, HgChangesetId)], id: &ChangesetId) -> (found: Option<
    HgChangesetId,
>)
    ensures
        found == hg_id_in(known@, *id),
{
    let mut i: usize = known.len();
    assert(known@.take(i as int) =~= known@);
    while i > 0
        invariant
            i <= known@.len(),
            hg_id_in(known@, *id) == hg_id_in(known@.take(i as int), *id),
        decreases i,
    {
        proof {
            assert(known@.take(i as int).drop_last() =~= known@.take(i - 1));
            assert(known@.take(i as int).last() == known@[i - 1]);
        }
        i -= 1;
        if known[i].0.same(id) {
            return Some(known[i].1);
        }
    }
    None
}

/// The identities of several commits in the schemes that a request asks
/// for, commit by commit, given the Mercurial identities that the repository
/// has for them.
pub fn map_commit_identities(
    ids: &Vec<ChangesetId>,
    known: &[(ChangesetId, HgChangesetId)],
    schemes: &[CommitIdentityScheme],
) -> (mapped: Vec<Vec<CommitId>>)
    ensures
        mapped@.len() == ids@.len(),
        forall|i: int|
            0 <= i < ids@.len() ==> is_identity_list(
                (#[trigger] mapped@[i])@,
                ids@[i],
                hg_id_in(known@, ids@[i]),
                schemes@.contains(CommitIdentityScheme::Hg),
            ),
{
    let mut mapped: Vec<Vec<CommitId>> = Vec::new();
    let mut i: usize = 0;
    while i < ids.len()
        invariant
            i <= ids@.len(),
            mapped@.len() == i,
            forall|j: int|
                0 <= j < i ==> is_identity_list(
                    (#[trigger] mapped@[j])@,
                    ids@[j],
                    hg_id_in(known@, ids@[j]),
                    schemes@.contains(CommitIdentityScheme::Hg),
                ),
        decreases ids@.len() - i,
    {
        let hg_id = find_hg_id(known, &ids[i]);
        mapped.push(map_commit_identity(&ids[i], hg_id, schemes));
        i += 1;
    }
    mapped
}

/// Whether `scheme` is among `schemes`.
pub fn wants(schemes: &[CommitIdentityScheme], scheme: CommitIdentityScheme) -> (found: bool)
    ensures
        found == schemes@.contains(scheme),
{
    let mut i: usize = 0;
    while i < schemes.len()
        invariant
            i <= schemes@.len(),
            forall|j: int| 0 <= j < i ==> schemes@[j] != scheme,
        decreases schemes@.len() - i,
    {
        if schemes[i] == scheme {
            return true;
        }
        i += 1;
    }
    false
}

/// A copy of `bytes`.
fn bytes_of(bytes: &[u8]) -> (copy: Vec<u8>)
    ensures
        copy@ == bytes@,
{
    let mut copy: Vec<u8> = Vec::new();
    let mut i: usize = 0;
    while i < bytes.len()
        invariant
            i <= bytes@.len(),
            copy@ == bytes@.take(i as int),
        decreases bytes@.len() - i,
    {
        copy.push(bytes[i]);
        assert(copy@ =~= bytes@.take(i + 1));
        i += 1;
    }
    assert(bytes@.take(i as int) =~= bytes@);
    copy
}

/// How a file is stored in a directory.
#[derive(Clone, Copy, Debug, PartialEq, Eq, Structural)]
pub enum FileType {
    Regular,
    Executable,
    Symlink,
}

/// What a directory entry is, as answers say it.
#[derive(Clone, Copy, Debug, PartialEq, Eq, Structural)]
pub enum EntryType {
    File,
    Exec,
    Link,
    Tree,
}

impl FileType {
    /// The entry type that an answer gives for a file of this type.
    pub open spec fn entry_type(self) -> EntryType {
        match self {
            FileType::Regular => EntryType::File,
            FileType::Executable => EntryType::Exec,
            FileType::Symlink => EntryType::Link,
        }
    }

    /// The entry type that an answer gives for a file of this type.
    pub fn into_response(self) -> (entry: EntryType)
        ensures
            entry == self.entry_type(),
    {
        match self {
            FileType::Regular => EntryType::File,
            FileType::Executable => EntryType::Exec,
            FileType::Symlink => EntryType::Link,
        }
    }
}

/// Where the page of a listing of `len` entries starts that a request asks
/// for from `offset` on: at that entry, or behind the last one if there is
/// no such entry. A negative offset is beyond every entry.
pub open spec fn page_start(len: int, offset: int) -> int {
    if 0 <= offset < len {
        offset
    } else {
        len
    }
}

/// Where the page ends that starts at `start` and may hold `limit` entries:
/// behind so many entries, or behind the last one if there are fewer. A
/// negative limit is no limit.
pub open spec fn page_end(len: int, start: int, limit: int) -> int {
    if 0 <= limit && start + limit < len {
        start + limit
    } else {
        len
    }
}

/// The part of a directory listing of `len` entries that a request for
/// `limit` entries from `offset` on is answered with, as the places of its
/// first entry and of the entry after its last.
pub fn tree_page(len: usize, offset: i64, limit: i64) -> (page: (usize, usize))
    ensures
        page.0 <= page.1 <= len,
        page.0 == page_start(len as int, offset as int),
        page.1 == page_end(len as int, page.0 as int, limit as int),
{
    let start: usize = if offset < 0 || offset as u64 >= len as u64 {
        len
    } else {
        offset as usize
    };
    let left: usize = len - start;
    let end: usize = if limit < 0 || limit as u64 >= left as u64 {
        len
    } else {
        start + limit as usize
    };
    (start, end)
}

/// The answer to a tree specifier of a form that is not known.
pub fn unknown_tree_specifier(id: i32) -> (error: RequestError)
    ensures
        error@ == (RequestFault {
            kind: RequestErrorKind::InvalidRequest,
            reason: "tree specifier type not supported: "@ + decimal_text(id as int),
        }),
{
    invalid_request(
        String::from_str("tree specifier type not supported: ").concat(
            decimal(id as i64).as_str(),
        ).as_str(),
    )
}

/// What the repository knows of a directory.
#[derive(Clone, Debug, PartialEq, Eq)]
pub struct TreeSummary {
    pub id: Vec<u8>,
    pub simple_format_sha1: Vec<u8>,
    pub simple_format_sha256: Vec<u8>,
    pub child_files_count: u64,
    pub child_files_total_size: u64,
    pub child_dirs_count: u64,
    pub descendant_files_count: u64,
    pub descendant_files_total_size: u64,
}

/// What the repository knows of a file's content.
#[derive(Clone, Debug, PartialEq, Eq)]
pub struct FileMetadata {
    pub content_id: Vec<u8>,
    pub total_size: u64,
    pub sha1: Vec<u8>,
    pub sha256: Vec<u8>,
}

/// What an answer says of a directory.
#[derive(Clone, Debug, PartialEq, Eq)]
pub struct TreeInfo {
    pub id: Vec<u8>,
    pub simple_format_sha1: Vec<u8>,
    pub simple_format_sha256: Vec<u8>,
    pub child_files_count: i64,
    pub child_files_total_size: i64,
    pub child_dirs_count: i64,
    pub descendant_files_count: i64,
    pub descendant_files_total_size: i64,
}

/// What an answer says of a file.
#[derive(Clone, Debug, PartialEq, Eq)]
pub struct FileInfo {
    pub id: Vec<u8>,
    pub file_size: i64,
    pub content_sha1: Vec<u8>,
    pub content_sha256: Vec<u8>,
}

/// What an answer says of a directory entry.
#[derive(Clone, Debug, PartialEq, Eq)]
pub enum EntryInfo {
    Tree(TreeInfo),
    File(FileInfo),
}

/// An entry of a directory, as the repository lists it.
#[derive(Clone, Debug, PartialEq, Eq)]
pub enum TreeEntry {
    Directory(TreeSummary),
    File(FileMetadata, FileType),
}

/// What the repository finds at a path of a commit.
#[derive(Clone, Debug, PartialEq, Eq)]
pub enum PathEntry {
    NotPresent,
    Tree(TreeSummary),
    File(FileMetadata, FileType),
}

/// The answer to a request for what is at a path of a commit.
#[derive(Clone, Debug, PartialEq, Eq)]
pub struct CommitPathInfoResponse {
    pub exists: bool,
    pub type_: Option<EntryType>,
    pub info: Option<EntryInfo>,
}

/// One entry of a directory listing in an answer.
#[derive(Clone, Debug, PartialEq, Eq)]
pub struct TreeEntryResponse {
    pub name: String,
    pub type_: EntryType,
    pub info: EntryInfo,
}

/// The answer to a request for a directory listing: a page of its entries,
/// and the number of entries in all.
#[derive(Clone, Debug, PartialEq, Eq)]
pub struct TreeListResponse {
    pub entries: Vec<TreeEntryResponse>,
    pub count: i64,
}

/// The signed number with the same 64 bits as `n`.
pub open spec fn signed(n: u64) -> i64 {
    if n <= i64::MAX {
        n as i64
    } else {
        (n - 0x1_0000_0000_0000_0000) as i64
    }
}

/// Reads the 64 bits of `n` as a signed number.
pub fn as_signed(n: u64) -> (number: i64)
    ensures
        number == signed(n),
{
    if n <= 0x7fff_ffff_ffff_ffff {
        n as i64
    } else {
        -((u64::MAX - n) as i64) - 1
    }
}

/// What an answer says of the directory that `summary` describes.
pub open spec fn tree_info_of(summary: TreeSummary) -> TreeInfo {
    TreeInfo {
        id: summary.id,
        simple_format_sha1: summary.simple_format_sha1,
        simple_format_sha256: summary.simple_format_sha256,
        child_files_count: signed(summary.child_files_count),
        child_files_total_size: signed(summary.child_files_total_size),
        child_dirs_count: signed(summary.child_dirs_count),
        descendant_files_count: signed(summary.descendant_files_count),
        descendant_files_total_size: signed(summary.descendant_files_total_size),
    }
}

/// What an answer says of the file that `metadata` describes.
pub open spec fn file_info_of(metadata: FileMetadata) -> FileInfo {
    FileInfo {
        id: metadata.content_id,
        file_size: signed(metadata.total_size),
        content_sha1: metadata.sha1,
        content_sha256: metadata.sha256,
    }
}

/// The entry of an answer for a named entry of a directory.
pub open spec fn entry_response(entry: (String, TreeEntry)) -> TreeEntryResponse {
    match entry.1 {
        TreeEntry::Directory(summary) => TreeEntryResponse {
            name: entry.0,
            type_: EntryType::Tree,
            info: EntryInfo::Tree(tree_info_of(summary)),
        },
        TreeEntry::File(metadata, file_type) => TreeEntryResponse {
            name: entry.0,
            type_: file_type.entry_type(),
            info: EntryInfo::File(file_info_of(metadata)),
        },
    }
}

/// The answer for what the repository finds at a path: nothing, a
/// directory, or a file.
pub open spec fn path_response_of(entry: PathEntry) -> CommitPathInfoResponse {
    match entry {
        PathEntry::NotPresent => CommitPathInfoResponse { exists: false, type_: None, info: None },
        PathEntry::Tree(summary) => CommitPathInfoResponse {
            exists: true,
            type_: Some(EntryType::Tree),
            info: Some(EntryInfo::Tree(tree_info_of(summary))),
        },
        PathEntry::File(metadata, file_type) => CommitPathInfoResponse {
            exists: true,
            type_: Some(file_type.entry_type()),
            info: Some(EntryInfo::File(file_info_of(metadata))),
        },
    }
}

/// The entries of an answer for the entries of a listing from place `from`
/// up to place `to`.
pub open spec fn listed(entries: Seq<(String, TreeEntry)>, from: int, to: int) -> Seq<
    TreeEntryResponse,
> {
    Seq::new((to - from) as nat, |i: int| entry_response(entries[from + i]))
}

impl TreeSummary {
    /// What an answer says of the directory.
    pub fn into_response(self) -> (info: TreeInfo)
        ensures
            info == tree_info_of(self),
    {
        TreeInfo {
            id: self.id,
            simple_format_sha1: self.simple_format_sha1,
            simple_format_sha256: self.simple_format_sha256,
            child_files_count: as_signed(self.child_files_count),
            child_files_total_size: as_signed(self.child_files_total_size),
            child_dirs_count: as_signed(self.child_dirs_count),
            descendant_files_count: as_signed(self.descendant_files_count),
            descendant_files_total_size: as_signed(self.descendant_files_total_size),
        }
    }
}

impl FileMetadata {
    /// What an answer says of the file.
    pub fn into_response(self) -> (info: FileInfo)
        ensures
            info == file_info_of(self),
    {
        FileInfo {
            id: self.content_id,
            file_size: as_signed(self.total_size),
            content_sha1: self.sha1,
            content_sha256: self.sha256,
        }
    }
}

/// Turns a named entry of a directory into the entry of an answer.
pub fn into_response(entry: (String, TreeEntry)) -> (response: TreeEntryResponse)
    ensures
        response == entry_response(entry),
{
    let (name, entry) = entry;
    let (type_, info) = match entry {
        TreeEntry::Directory(summary) => (
            EntryType::Tree,
            EntryInfo::Tree(summary.into_response()),
        ),
        TreeEntry::File(metadata, file_type) => (
            file_type.into_response(),
            EntryInfo::File(metadata.into_response()),
        ),
    };
    TreeEntryResponse { name, type_, info }
}

/// The answer for what the repository finds at a path of a commit. What no
/// entry is at does not exist and has neither type nor info; a directory
/// and a file exist, with their type and what is known of them.
pub fn path_response(entry: PathEntry) -> (response: CommitPathInfoResponse)
    ensures
        response == path_response_of(entry),
        response.exists == !(entry is NotPresent),
        response.type_ is Some <==> response.exists,
        response.info is Some <==> response.exists,
{
    match entry {
        PathEntry::NotPresent => CommitPathInfoResponse { exists: false, type_: None, info: None },
        PathEntry::Tree(summary) => CommitPathInfoResponse {
            exists: true,
            type_: Some(EntryType::Tree),
            info: Some(EntryInfo::Tree(summary.into_response())),
        },
        PathEntry::File(metadata, file_type) => CommitPathInfoResponse {
            exists: true,
            type_: Some(file_type.into_response()),
            info: Some(EntryInfo::File(metadata.into_response())),
        },
    }
}

/// The answer to a request for `limit` entries of a directory listing from
/// `offset` on. Of a directory, given by its summary and its entries, the
/// answer holds that page of the entries, and as the count the number of
/// files and directories that the summary gives for it, added as 64-bit
/// numbers. What is no directory is answered with an empty listing and a
/// count of 0.
pub fn tree_list_response(
    tree: Option<(TreeSummary, Vec<(String, TreeEntry)>)>,
    offset: i64,
    limit: i64,
) -> (response: TreeListResponse)
    ensures
        match tree {
            Some((summary, entries)) => {
                let start = page_start(entries@.len() as int, offset as int);
                let end = page_end(entries@.len() as int, start, limit as int);
                &&& response.entries@ == listed(entries@, start, end)
                &&& response.count == signed(
                    summary.child_files_count.wrapping_add(summary.child_dirs_count),
                )
            },
            None => response.entries@.len() == 0 && response.count == 0,
        },
{
    match tree {
        Some((summary, entries)) => {
            let count = as_signed(summary.child_files_count.wrapping_add(summary.child_dirs_count));
            let (start, end) = tree_page(entries.len(), offset, limit);
            let ghost all = entries@;
            let mut entries = entries;
            // drop what is behind the page, then take the page from its end
            while entries.len() > end
                invariant
                    end <= entries@.len() <= all.len(),
                    entries@ == all.take(entries@.len() as int),
                decreases entries@.len(),
            {
                entries.pop();
                assert(entries@ =~= all.take(entries@.len() as int));
            }
            let mut backwards: Vec<TreeEntryResponse> = Vec::new();
            while entries.len() > start
                invariant
                    start <= entries@.len() <= end <= all.len(),
                    entries@ == all.take(entries@.len() as int),
                    backwards@.len() == end - entries@.len(),
                    forall|i: int|
                        0 <= i < backwards@.len() ==> backwards@[i] == entry_response(
                            all[end - 1 - i],
                        ),
                decreases entries@.len(),
            {
                match entries.pop() {
                    Some(entry) => {
                        backwards.push(into_response(entry));
                    },
                    None => {},
                }
                assert(entries@ =~= all.take(entries@.len() as int));
            }
            let mut page: Vec<TreeEntryResponse> = Vec::new();
            let ghost turned = backwards@;
            while backwards.len() > 0
                invariant
                    turned.len() == end - start,
                    backwards@.len() + page@.len() == turned.len(),
                    backwards@ == turned.take(backwards@.len() as int),
                    forall|i: int|
                        0 <= i < turned.len() ==> turned[i] == entry_response(all[end - 1 - i]),
                    forall|i: int|
                        0 <= i < page@.len() ==> page@[i] == entry_response(all[start + i]),
                decreases backwards@.len(),
            {
                match backwards.pop() {
                    Some(entry) => {
                        page.push(entry);
                    },
                    None => {},
                }
                assert(backwards@ =~= turned.take(backwards@.len() as int));
            }
            assert(page@ =~= listed(all, start as int, end as int));
            TreeListResponse { entries: page, count }
        },
        None => TreeListResponse { entries: Vec::new(), count: 0 },
    }
}

/// The node that a walk starts from for a bookmark.
pub fn bookmark_root(name: &str) -> (node: Node)
    ensures
        node@ == NodeId::Bookmark(name@),
{
    Node::Bookmark(name.to_owned())
}

} // verus!

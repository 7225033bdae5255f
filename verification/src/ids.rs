//! Identities of stored objects: fixed-width content hashes, one type for
//! each thing that a hash can name.

use vstd::prelude::*;
use crate::bytes::{bytes_same, le_word, leading_word};

verus! {

/// Copies the first 32 bytes of `bytes`.
fn take32(bytes: &[u8]) -> (out: [u8; 32])
    requires
        bytes@.len() >= 32,
    ensures
        out@ == bytes@.subrange(0, 32),
{
    let mut out: [u8; 32] = [0u8; 32];
    let mut i: usize = 0;
    while i < 32
        invariant
            i <= 32,
            bytes@.len() >= 32,
            forall|j: int| 0 <= j < i ==> out@[j] == bytes@[j],
        decreases 32 - i,
    {
        out[i] = bytes[i];
        i += 1;
    }
    assert(out@ =~= bytes@.subrange(0, 32));
    out
}

/// Copies the first 20 bytes of `bytes`.
fn take20(bytes: &[u8]) -> (out: [u8; 20])
    requires
        bytes@.len() >= 20,
    ensures
        out@ == bytes@.subrange(0, 20),
{
    let mut out: [u8; 20] = [0u8; 20];
    let mut i: usize = 0;
    while i < 20
        invariant
            i <= 20,
            bytes@.len() >= 20,
            forall|j: int| 0 <= j < i ==> out@[j] == bytes@[j],
        decreases 20 - i,
    {
        out[i] = bytes[i];
        i += 1;
    }
    assert(out@ =~= bytes@.subrange(0, 20));
    out
}

/// Identity of a commit in the content-addressed (bonsai) scheme.
#[derive(Clone, Copy, Debug, PartialEq, Eq, Hash)]
pub struct ChangesetId(pub [u8; 32]);

impl View for ChangesetId {
    type V = Seq<u8>;

    open spec fn view(&self) -> Seq<u8> {
        self.0@
    }
}

impl ChangesetId {
    /// The identity with exactly these bytes; none unless there are 32 of them.
    pub fn from_bytes(bytes: &[u8]) -> (id: Option<ChangesetId>)
        ensures
            id is Some <==> bytes@.len() == 32,
            id matches Some(v) ==> v@ == bytes@,
    {
        if bytes.len() == 32 {
            let id = ChangesetId(take32(bytes));
            assert(id@ =~= bytes@);
            Some(id)
        } else {
            None
        }
    }

    /// Whether both name the same object.
    pub fn same(&self, other: &ChangesetId) -> (same: bool)
        ensures
            same == (self@ == other@),
    {
        bytes_same(self.0.as_slice(), other.0.as_slice())
    }

    /// The number that sampling goes by: the leading eight bytes, read
    /// little-endian.
    pub fn sampling_fingerprint(&self) -> (fp: u64)
        ensures
            fp as int == le_word(self@),
    {
        leading_word(self.0.as_slice())
    }
}

/// Identity of a file's content.
#[derive(Clone, Copy, Debug, PartialEq, Eq, Hash)]
pub struct ContentId(pub [u8; 32]);

impl View for ContentId {
    type V = Seq<u8>;

    open spec fn view(&self) -> Seq<u8> {
        self.0@
    }
}

impl ContentId {
    /// The identity with exactly these bytes; none unless there are 32 of them.
    pub fn from_bytes(bytes: &[u8]) -> (id: Option<ContentId>)
        ensures
            id is Some <==> bytes@.len() == 32,
            id matches Some(v) ==> v@ == bytes@,
    {
        if bytes.len() == 32 {
            let id = ContentId(take32(bytes));
            assert(id@ =~= bytes@);
            Some(id)
        } else {
            None
        }
    }

    /// Whether both name the same object.
    pub fn same(&self, other: &ContentId) -> (same: bool)
        ensures
            same == (self@ == other@),
    {
        bytes_same(self.0.as_slice(), other.0.as_slice())
    }

    /// The number that sampling goes by: the leading eight bytes, read
    /// little-endian.
    pub fn sampling_fingerprint(&self) -> (fp: u64)
        ensures
            fp as int == le_word(self@),
    {
        leading_word(self.0.as_slice())
    }
}

/// Identity of a directory listing with its summary.
#[derive(Clone, Copy, Debug, PartialEq, Eq, Hash)]
pub struct TreeId(pub [u8; 32]);

impl View for TreeId {
    type V = Seq<u8>;

    open spec fn view(&self) -> Seq<u8> {
        self.0@
    }
}

impl TreeId {
    /// The identity with exactly these bytes; none unless there are 32 of them.
    pub fn from_bytes(bytes: &[u8]) -> (id: Option<TreeId>)
        ensures
            id is Some <==> bytes@.len() == 32,
            id matches Some(v) ==> v@ == bytes@,
    {
        if bytes.len() == 32 {
            let id = TreeId(take32(bytes));
            assert(id@ =~= bytes@);
            Some(id)
        } else {
            None
        }
    }

    /// Whether both name the same object.
    pub fn same(&self, other: &TreeId) -> (same: bool)
        ensures
            same == (self@ == other@),
    {
        bytes_same(self.0.as_slice(), other.0.as_slice())
    }

    /// The number that sampling goes by: the leading eight bytes, read
    /// little-endian.
    pub fn sampling_fingerprint(&self) -> (fp: u64)
        ensures
            fp as int == le_word(self@),
    {
        leading_word(self.0.as_slice())
    }
}

/// Identity of a commit in the Mercurial scheme.
#[derive(Clone, Copy, Debug, PartialEq, Eq, Hash)]
pub struct HgChangesetId(pub [u8; 20]);

impl View for HgChangesetId {
    type V = Seq<u8>;

    open spec fn view(&self) -> Seq<u8> {
        self.0@
    }
}

impl HgChangesetId {
    /// The identity with exactly these bytes; none unless there are 20 of them.
    pub fn from_bytes(bytes: &[u8]) -> (id: Option<HgChangesetId>)
        ensures
            id is Some <==> bytes@.len() == 20,
            id matches Some(v) ==> v@ == bytes@,
    {
        if bytes.len() == 20 {
            let id = HgChangesetId(take20(bytes));
            assert(id@ =~= bytes@);
            Some(id)
        } else {
            None
        }
    }

    /// Whether both name the same object.
    pub fn same(&self, other: &HgChangesetId) -> (same: bool)
        ensures
            same == (self@ == other@),
    {
        bytes_same(self.0.as_slice(), other.0.as_slice())
    }

    /// The number that sampling goes by: the leading eight bytes, read
    /// little-endian.
    pub fn sampling_fingerprint(&self) -> (fp: u64)
        ensures
            fp as int == le_word(self@),
    {
        leading_word(self.0.as_slice())
    }
}

/// Identity of a Mercurial manifest: one directory level of a commit's tree.
#[derive(Clone, Copy, Debug, PartialEq, Eq, Hash)]
pub struct HgManifestId(pub [u8; 20]);

impl View for HgManifestId {
    type V = Seq<u8>;

    open spec fn view(&self) -> Seq<u8> {
        self.0@
    }
}

impl HgManifestId {
    /// The identity with exactly these bytes; none unless there are 20 of them.
    pub fn from_bytes(bytes: &[u8]) -> (id: Option<HgManifestId>)
        ensures
            id is Some <==> bytes@.len() == 20,
            id matches Some(v) ==> v@ == bytes@,
    {
        if bytes.len() == 20 {
            let id = HgManifestId(take20(bytes));
            assert(id@ =~= bytes@);
            Some(id)
        } else {
            None
        }
    }

    /// Whether both name the same object.
    pub fn same(&self, other: &HgManifestId) -> (same: bool)
        ensures
            same == (self@ == other@),
    {
        bytes_same(self.0.as_slice(), other.0.as_slice())
    }

    /// The number that sampling goes by: the leading eight bytes, read
    /// little-endian.
    pub fn sampling_fingerprint(&self) -> (fp: u64)
        ensures
            fp as int == le_word(self@),
    {
        leading_word(self.0.as_slice())
    }
}

/// Identity of one revision of a file in the Mercurial scheme.
#[derive(Clone, Copy, Debug, PartialEq, Eq, Hash)]
pub struct HgFileNodeId(pub [u8; 20]);

impl View for HgFileNodeId {
    type V = Seq<u8>;

    open spec fn view(&self) -> Seq<u8> {
        self.0@
    }
}

impl HgFileNodeId {
    /// The identity with exactly these bytes; none unless there are 20 of them.
    pub fn from_bytes(bytes: &[u8]) -> (id: Option<HgFileNodeId>)
        ensures
            id is Some <==> bytes@.len() == 20,
            id matches Some(v) ==> v@ == bytes@,
    {
        if bytes.len() == 20 {
            let id = HgFileNodeId(take20(bytes));
            assert(id@ =~= bytes@);
            Some(id)
        } else {
            None
        }
    }

    /// Whether both name the same object.
    pub fn same(&self, other: &HgFileNodeId) -> (same: bool)
        ensures
            same == (self@ == other@),
    {
        bytes_same(self.0.as_slice(), other.0.as_slice())
    }

    /// The number that sampling goes by: the leading eight bytes, read
    /// little-endian.
    pub fn sampling_fingerprint(&self) -> (fp: u64)
        ensures
            fp as int == le_word(self@),
    {
        leading_word(self.0.as_slice())
    }
}

/// An alternative hash by which file content can be found.
#[derive(Clone, Copy, Debug, PartialEq, Eq, Hash)]
pub enum Alias {
    Sha1([u8; 20]),
    GitSha1([u8; 20]),
    Sha256([u8; 32]),
}

/// What an [`Alias`] is in contracts: the scheme and the hash's bytes.
pub enum AliasId {
    Sha1(Seq<u8>),
    GitSha1(Seq<u8>),
    Sha256(Seq<u8>),
}

impl AliasId {
    /// The hash itself, whatever the scheme.
    pub open spec fn bytes(self) -> Seq<u8> {
        match self {
            AliasId::Sha1(b) => b,
            AliasId::GitSha1(b) => b,
            AliasId::Sha256(b) => b,
        }
    }
}

impl View for Alias {
    type V = AliasId;

    open spec fn view(&self) -> AliasId {
        match *self {
            Alias::Sha1(b) => AliasId::Sha1(b@),
            Alias::GitSha1(b) => AliasId::GitSha1(b@),
            Alias::Sha256(b) => AliasId::Sha256(b@),
        }
    }
}

impl Alias {
    /// Whether both are the same hash in the same scheme.
    pub fn same(&self, other: &Alias) -> (same: bool)
        ensures
            same == (self@ == other@),
    {
        match (self, other) {
            (Alias::Sha1(a), Alias::Sha1(b)) => bytes_same(a.as_slice(), b.as_slice()),
            (Alias::GitSha1(a), Alias::GitSha1(b)) => bytes_same(a.as_slice(), b.as_slice()),
            (Alias::Sha256(a), Alias::Sha256(b)) => bytes_same(a.as_slice(), b.as_slice()),
            _ => false,
        }
    }

    /// The number that sampling goes by: the leading eight bytes of the
    /// hash, read little-endian.
    pub fn sampling_fingerprint(&self) -> (fp: u64)
        ensures
            fp as int == le_word(self@.bytes()),
    {
        match self {
            Alias::Sha1(a) => leading_word(a.as_slice()),
            Alias::GitSha1(a) => leading_word(a.as_slice()),
            Alias::Sha256(a) => leading_word(a.as_slice()),
        }
    }
}

} // verus!

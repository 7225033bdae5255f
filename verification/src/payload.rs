//! Payloads: what is stored under a node's key, as far as a walk reads it.
//!
//! Structural kinds carry their metadata whole. File content is the one bulk
//! payload: it is a stream of chunks that can be read once, after which only
//! its size is left.

use vstd::prelude::*;
use crate::ids::{ChangesetId, ContentId, HgChangesetId, HgFileNodeId, HgManifestId};
use crate::node::MPath;

verus! {

/// The sum of the lengths of `chunks`.
pub open spec fn total_len(chunks: Seq<Vec<u8>>) -> nat
    decreases chunks.len(),
{
    if chunks.len() == 0 {
        0
    } else {
        chunks[0]@.len() + total_len(chunks.skip(1))
    }
}

/// `n`, or the largest size if `n` is larger.
pub open spec fn capped(n: int) -> usize {
    if n <= usize::MAX {
        n as usize
    } else {
        usize::MAX
    }
}

/// A stream of chunks that is read once, from the front: a chunk that was
/// handed out is gone from the stream.
#[derive(Debug)]
pub struct ChunkStream {
    /// The chunks to come, the next one last.
    rest: Vec<Vec<u8>>,
    /// The number of bytes handed out so far.
    read: usize,
}

impl ChunkStream {
    /// The chunks to come, in order.
    pub closed spec fn pending(&self) -> Seq<Vec<u8>> {
        self.rest@.reverse()
    }

    /// The number of bytes handed out so far; a number beyond `usize::MAX`
    /// is counted as `usize::MAX`.
    pub closed spec fn bytes_read(&self) -> usize {
        self.read
    }

    /// The number of bytes in the stream from its start to its end, read or
    /// not; a number beyond `usize::MAX` is counted as `usize::MAX`.
    pub open spec fn size(&self) -> usize {
        capped(self.bytes_read() + total_len(self.pending()))
    }

    /// A stream that will hand out `chunks`, in order.
    pub fn new(chunks: Vec<Vec<u8>>) -> (stream: ChunkStream)
        ensures
            stream.pending() == chunks@,
            stream.bytes_read() == 0,
    {
        let mut chunks = chunks;
        let ghost given = chunks@;
        let mut rest: Vec<Vec<u8>> = Vec::new();
        while chunks.len() > 0
            invariant
                chunks@.len() + rest@.len() == given.len(),
                chunks@ == given.take(chunks@.len() as int),
                forall|i: int| 0 <= i < rest@.len() ==> rest@[i] == given[given.len() - 1 - i],
            decreases chunks@.len(),
        {
            let ghost before = chunks@;
            match chunks.pop() {
                Some(chunk) => {
                    rest.push(chunk);
                },
                None => {},
            }
            assert(chunks@ =~= given.take(chunks@.len() as int));
        }
        let stream = ChunkStream { rest, read: 0 };
        assert(stream.pending() =~= given);
        stream
    }

    /// Adds a chunk that has arrived to the end of the stream.
    pub fn feed(&mut self, chunk: Vec<u8>)
        ensures
            final(self).pending() == old(self).pending().push(chunk),
            final(self).bytes_read() == old(self).bytes_read(),
    {
        self.rest.insert(0, chunk);
        assert(self.rest@.reverse() =~= old(self).rest@.reverse().push(chunk));
    }

    /// Hands out the next chunk, or nothing at the end of the stream.
    pub fn next_chunk(&mut self) -> (chunk: Option<Vec<u8>>)
        ensures
            match chunk {
                Some(c) => {
                    &&& old(self).pending().len() > 0
                    &&& c == old(self).pending()[0]
                    &&& final(self).pending() == old(self).pending().skip(1)
                    &&& final(self).bytes_read() == capped(old(self).bytes_read() + c@.len())
                },
                None => old(self).pending().len() == 0 && *final(self) == *old(self),
            },
            final(self).size() == old(self).size(),
    {
        let ghost before = self.rest@;
        if self.rest.len() == 0 {
            assert(before.reverse().len() == 0);
            return None;
        }
        let chunk = self.rest.pop();
        match &chunk {
            Some(c) => {
                self.read = self.read.saturating_add(c.len());
                proof {
                    assert(self.rest@.reverse() =~= before.reverse().skip(1));
                    assert(before.reverse()[0] == *c);
                }
            },
            None => {},
        }
        chunk
    }
}

/// File content gets a special two-state content so we can choose when to
/// read the data.
#[derive(Debug)]
pub enum FileContentData {
    /// Not read to the end yet: the stream of its chunks.
    ContentStream(ChunkStream),
    /// Read to the end: the number of bytes that were in it.
    Consumed(usize),
}

impl FileContentData {
    /// The number of bytes in the content, read or not; a number beyond
    /// `usize::MAX` is counted as `usize::MAX`.
    pub open spec fn size(self) -> usize {
        match self {
            FileContentData::ContentStream(stream) => stream.size(),
            FileContentData::Consumed(bytes) => bytes,
        }
    }

    /// Content that is still to be read, as the chunks that it will be read
    /// in.
    pub fn unread(chunks: Vec<Vec<u8>>) -> (content: FileContentData)
        ensures
            content matches FileContentData::ContentStream(stream) && stream.pending() == chunks@
                && stream.bytes_read() == 0,
    {
        FileContentData::ContentStream(ChunkStream::new(chunks))
    }

    /// Whether the content was read to the end.
    pub fn is_consumed(&self) -> (consumed: bool)
        ensures
            consumed == (*self is Consumed),
    {
        match self {
            FileContentData::ContentStream(_) => false,
            FileContentData::Consumed(_) => true,
        }
    }

    /// Adds a chunk that has arrived to the end of content that is still
    /// being read, and says so. Content that is consumed takes no more: it
    /// stays as it is.
    pub fn feed(&mut self, chunk: Vec<u8>) -> (taken: bool)
        ensures
            match *old(self) {
                FileContentData::ContentStream(before) => {
                    &&& taken
                    &&& *final(self) matches FileContentData::ContentStream(after)
                    &&& after.pending() == before.pending().push(chunk)
                    &&& after.bytes_read() == before.bytes_read()
                },
                FileContentData::Consumed(_) => !taken && *final(self) == *old(self),
            },
    {
        match self {
            FileContentData::ContentStream(stream) => {
                stream.feed(chunk);
                true
            },
            FileContentData::Consumed(_) => false,
        }
    }

    /// Hands out the next chunk of content that is still being read. At the
    /// end of the stream nothing is handed out and the content becomes
    /// `Consumed`, with the number of bytes that were in it; content that is
    /// consumed hands out nothing and stays as it is.
    pub fn next_chunk(&mut self) -> (chunk: Option<Vec<u8>>)
        ensures
            final(self).size() == old(self).size(),
            match *old(self) {
                FileContentData::ContentStream(before) => match chunk {
                    Some(c) => {
                        &&& before.pending().len() > 0
                        &&& c == before.pending()[0]
                        &&& *final(self) matches FileContentData::ContentStream(after)
                        &&& after.pending() == before.pending().skip(1)
                        &&& after.bytes_read() == capped(before.bytes_read() + c@.len())
                    },
                    None => {
                        &&& before.pending().len() == 0
                        &&& *final(self) == FileContentData::Consumed(before.bytes_read())
                    },
                },
                FileContentData::Consumed(_) => chunk is None && *final(self) == *old(self),
            },
    {
        let (chunk, read) = match self {
            FileContentData::Consumed(_) => {
                return None;
            },
            FileContentData::ContentStream(stream) => {
                let chunk = stream.next_chunk();
                (chunk, stream.read)
            },
        };
        if chunk.is_none() {
            *self = FileContentData::Consumed(read);
        }
        chunk
    }

    /// Reads what is left of the content and returns the number of bytes
    /// that were in it from its start. The content cannot be read again:
    /// afterwards it is `Consumed` with that number.
    pub fn drain(&mut self) -> (bytes: usize)
        ensures
            bytes == old(self).size(),
            *final(self) == FileContentData::Consumed(bytes),
    {
        loop
            invariant
                self.size() == old(self).size(),
            ensures
                *self is Consumed,
                self.size() == old(self).size(),
            decreases
                    match *self {
                        FileContentData::ContentStream(stream) => stream.pending().len() + 1,
                        FileContentData::Consumed(_) => 0,
                    },
        {
            if self.next_chunk().is_none() {
                break ;
            }
        }
        match self {
            FileContentData::Consumed(bytes) => *bytes,
            FileContentData::ContentStream(_) => 0,
        }
    }
}

/// A commit in the content-addressed scheme, as far as a walk reads it.
#[derive(Clone, Debug, PartialEq, Eq)]
pub struct BonsaiChangeset {
    /// The parent commits, in order.
    pub parents: Vec<ChangesetId>,
    /// The content of each file that the commit adds or changes.
    pub file_changes: Vec<ContentId>,
}

/// A commit in the Mercurial scheme, as far as a walk reads it.
#[derive(Clone, Debug, PartialEq, Eq)]
pub struct HgBlobChangeset {
    /// The manifest of the commit's root directory.
    pub manifestid: HgManifestId,
    /// The parent commits, in order.
    pub parents: Vec<HgChangesetId>,
}

/// What a manifest entry names.
#[derive(Clone, Copy, Debug, PartialEq, Eq)]
pub enum HgEntryId {
    File(HgFileNodeId),
    Manifest(HgManifestId),
}

/// One entry of a manifest: a name in the directory and what it names.
#[derive(Clone, Debug, PartialEq, Eq)]
pub struct ManifestEntry {
    pub name: String,
    pub id: HgEntryId,
}

/// One directory level of a commit's tree.
#[derive(Clone, Debug, PartialEq, Eq)]
pub struct HgManifest {
    pub entries: Vec<ManifestEntry>,
}

/// The envelope of a Mercurial file revision: where its content is.
#[derive(Clone, Copy, Debug, PartialEq, Eq)]
pub struct HgFileEnvelope {
    pub content_id: ContentId,
    pub content_size: u64,
}

/// The history of a Mercurial file revision.
#[derive(Clone, Debug, PartialEq, Eq)]
pub struct FilenodeInfo {
    pub p1: Option<HgFileNodeId>,
    pub p2: Option<HgFileNodeId>,
    /// The path and revision that the file was copied from.
    pub copyfrom: Option<(MPath, HgFileNodeId)>,
    /// The commit that introduced the revision.
    pub linknode: HgChangesetId,
}

/// What is known of a file's content without reading it.
#[derive(Clone, Copy, Debug, PartialEq, Eq)]
pub struct ContentMetadata {
    pub total_size: u64,
    pub content_id: ContentId,
    pub sha1: [u8; 20],
    pub sha256: [u8; 32],
    pub git_sha1: [u8; 20],
}

/// The data from the walk - this is the "full" form but not necessarily
/// fully loaded: file content is handed over as a stream to read.
#[derive(Debug)]
pub enum NodeData {
    // Bonsai
    Bookmark(ChangesetId),
    BonsaiChangeset(BonsaiChangeset),
    BonsaiHgMapping(HgChangesetId),
    // Hg
    HgBonsaiMapping(Option<ChangesetId>),
    HgChangeset(HgBlobChangeset),
    HgManifest(HgManifest),
    HgFileEnvelope(HgFileEnvelope),
    HgFileNode(Option<FilenodeInfo>),
    // Content
    FileContent(FileContentData),
    FileContentMetadata(ContentMetadata),
    AliasContentMapping(ContentId),
}

} // verus!

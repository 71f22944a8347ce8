//! The chunked reader: the decisions of the background worker that reads a
//! file. The worker hands it each chunk it reads and publishes what it
//! returns; the reader decides what is kept, what is published, and when the
//! load is over.
use vstd::prelude::*;
use vstd::string::StringExecFns;
use vstd::utf8::{encode_utf8, valid_utf8};
use crate::policy::{
    is_large, loaded_due, pause_millis, preview_due, spec_is_large, spec_loaded_due,
    spec_preview_due, CHUNK_SIZE, LARGE_FILE_THRESHOLD, PREVIEW_LIMIT, MAX_LARGE_CONTENT, TRUNCATION_MARKER,
};
use crate::cell::{applied, ProgressCell};
use crate::text::{
    all_bytes, chunks_of, decode_chunk, kept_bytes, kept_text, lemma_all_bytes_push,
    lemma_chunks_of_rebuild, lemma_encode_concat, lemma_kept_text_encodes, lemma_kept_within_all,
    utf8_len,
};

verus! {

/// The result of one load: the path the file was opened by, and the text
/// assembled for display.
pub struct LoadOutcome {
    pub name: String,
    pub content: String,
}

/// What a step of a load publishes into the progress cell, tagged with the
/// generation of the load. A field left `None` publishes nothing.
pub struct Progress {
    pub generation: u64,
    pub total: Option<usize>,
    pub loaded: Option<usize>,
    pub preview: Option<String>,
    pub outcome: Option<LoadOutcome>,
}

impl Progress {
    /// A publication that carries nothing.
    pub fn nothing(generation: u64) -> (p: Progress)
        ensures
            p.is_empty(),
            p.generation == generation,
    {
        Progress { generation, total: None, loaded: None, preview: None, outcome: None }
    }

    pub open spec fn is_empty(&self) -> bool {
        &&& self.total.is_none()
        &&& self.loaded.is_none()
        &&& self.preview.is_none()
        &&& self.outcome.is_none()
    }

    /// Whether there is anything to publish.
    pub fn has_news(&self) -> (r: bool)
        ensures
            r == !self.is_empty(),
    {
        self.total.is_some() || self.loaded.is_some() || self.preview.is_some()
            || self.outcome.is_some()
    }
}

/// The abstract state of a reader.
pub struct ReaderView {
    pub path: Seq<char>,
    pub generation: u64,
    pub large: bool,
    pub total: usize,
    /// The total has been published; nothing else is published before it.
    pub announced: bool,
    /// Every chunk handed in so far, valid or not.
    pub chunks: Seq<Seq<u8>>,
    /// The last value published as `bytes_loaded`.
    pub published_loaded: usize,
}

impl ReaderView {
    /// Bytes read so far: every byte handed in, valid or not.
    pub open spec fn read(self) -> nat {
        all_bytes(self.chunks).len()
    }

    /// Bytes kept so far.
    pub open spec fn kept(self) -> nat {
        kept_bytes(self.chunks).len()
    }

    /// Most bytes the policy lets the load keep.
    pub open spec fn cap(self) -> nat {
        if self.large {
            MAX_LARGE_CONTENT as nat
        } else {
            usize::MAX as nat
        }
    }

    /// The large-file policy has cut the file short.
    pub open spec fn truncated(self) -> bool {
        self.large && self.kept() >= MAX_LARGE_CONTENT
    }

    /// How many more bytes the load can take: what the policy still lets it
    /// keep, and what the count of bytes read can still hold.
    pub open spec fn room(self) -> int {
        let by_policy = self.cap() - self.kept();
        let by_count = usize::MAX - self.read();
        if by_policy < by_count {
            by_policy
        } else {
            by_count
        }
    }

    /// The longest chunk the reader takes next; zero once it takes no more.
    pub open spec fn read_limit(self) -> nat {
        if self.room() <= 0 {
            0
        } else if self.room() < CHUNK_SIZE {
            self.room() as nat
        } else {
            CHUNK_SIZE as nat
        }
    }

    /// The text assembled so far.
    pub open spec fn content(self) -> Seq<char> {
        if self.truncated() {
            kept_text(self.chunks) + TRUNCATION_MARKER@
        } else {
            kept_text(self.chunks)
        }
    }
}

/// Total size as published: the file size, or `usize::MAX` where it does not
/// fit.
pub open spec fn clipped_size(file_size: u64) -> usize {
    if file_size as int <= usize::MAX as int {
        file_size as usize
    } else {
        usize::MAX
    }
}

/// The state of one load in progress.
pub struct ChunkedReader {
    path: String,
    generation: u64,
    large: bool,
    total: usize,
    content: String,
    read: usize,
    kept: usize,
    published_loaded: usize,
    announced: Ghost<bool>,
    chunks: Ghost<Seq<Seq<u8>>>,
}

impl View for ChunkedReader {
    type V = ReaderView;

    closed spec fn view(&self) -> ReaderView {
        ReaderView {
            path: self.path@,
            generation: self.generation,
            large: self.large,
            total: self.total,
            announced: self.announced@,
            chunks: self.chunks@,
            published_loaded: self.published_loaded,
        }
    }
}

impl ChunkedReader {
    pub closed spec fn wf(&self) -> bool {
        &&& self.content@ == self@.content()
        &&& self.read == self@.read()
        &&& self.kept == self@.kept()
        &&& self.published_loaded <= self.kept
        &&& self.kept <= self.read
        &&& self.kept <= self@.cap()
    }

    /// Starts a load of `path` for the given generation; `file_size` is what
    /// the file system reported, or zero where it could not say.
    pub fn new(path: String, generation: u64, file_size: u64) -> (r: ChunkedReader)
        ensures
            r.wf(),
            r@ == (ReaderView {
                path: path@,
                generation,
                large: spec_is_large(file_size),
                total: clipped_size(file_size),
                announced: false,
                chunks: Seq::empty(),
                published_loaded: 0,
            }),
    {
        let total: usize = if file_size as u128 <= usize::MAX as u128 {
            file_size as usize
        } else {
            usize::MAX
        };
        let r = ChunkedReader {
            path,
            generation,
            large: is_large(file_size),
            total,
            content: String::new(),
            read: 0,
            kept: 0,
            published_loaded: 0,
            announced: Ghost(false),
            chunks: Ghost(Seq::empty()),
        };
        assert(kept_text(Seq::<Seq<u8>>::empty()) =~= Seq::<char>::empty());
        r
    }

    /// The first publication of a load: the total size, and nothing else.
    /// Chunks are taken only after it.
    pub fn announce(&mut self) -> (p: Progress)
        requires
            old(self).wf(),
        ensures
            final(self).wf(),
            final(self)@ == (ReaderView { announced: true, ..old(self)@ }),
            p.generation == old(self)@.generation,
            p.total == Some(old(self)@.total),
            p.loaded.is_none(),
            p.preview.is_none(),
            p.outcome.is_none(),
    {
        self.announced = Ghost(true);
        Progress {
            generation: self.generation,
            total: Some(self.total),
            loaded: None,
            preview: None,
            outcome: None,
        }
    }

    /// The longest chunk to read next; zero once the load takes no more.
    pub fn next_read_len(&self) -> (r: usize)
        requires
            self.wf(),
        ensures
            r == self@.read_limit(),
    {
        let by_policy: usize = if self.large {
            MAX_LARGE_CONTENT - self.kept
        } else {
            usize::MAX - self.kept
        };
        let by_count: usize = usize::MAX - self.read;
        let room: usize = if by_policy < by_count {
            by_policy
        } else {
            by_count
        };
        if room < CHUNK_SIZE {
            room
        } else {
            CHUNK_SIZE
        }
    }

    /// Milliseconds the worker pauses after each chunk of this load.
    pub fn pause_millis(&self) -> (r: u64)
        ensures
            r == if self@.large {
                2u64
            } else {
                1u64
            },
    {
        pause_millis(self.large)
    }

    /// Takes one chunk read from the file. A chunk that is not valid UTF-8
    /// on its own is dropped. The result says what to publish, counted in
    /// bytes read: the preview while at most `PREVIEW_LIMIT` bytes are read,
    /// `bytes_loaded` every stride and when the file is cut short; never the
    /// total, never the outcome.
    pub fn accept_chunk(&mut self, chunk: &[u8]) -> (p: Progress)
        requires
            old(self).wf(),
            old(self)@.announced,
            0 < chunk@.len() <= old(self)@.read_limit(),
        ensures
            final(self).wf(),
            chunk_step(old(self)@, chunk@, final(self)@, p),
    {
        let ghost pre = self@;
        let decoded = decode_chunk(chunk);
        self.chunks = Ghost(self.chunks@.push(chunk@));
        self.read = self.read + chunk.len();
        proof {
            let c = self.chunks@;
            assert(c.drop_last() =~= pre.chunks);
            assert(c.last() == chunk@);
            lemma_all_bytes_push(pre.chunks, chunk@);
        }
        match decoded {
            None => {
                proof {
                    assert(kept_text(self.chunks@) =~= kept_text(pre.chunks));
                    assert(kept_bytes(self.chunks@) =~= kept_bytes(pre.chunks));
                }
                Progress::nothing(self.generation)
            },
            Some(s) => {
                self.content.append(s.as_str());
                self.kept = self.kept + chunk.len();
                let preview = if preview_due(self.read) {
                    Some(self.content.clone())
                } else {
                    None
                };
                let truncating = self.large && self.kept >= MAX_LARGE_CONTENT;
                if truncating {
                    self.content.append(TRUNCATION_MARKER);
                }
                let loaded = if loaded_due(self.large, self.read) || truncating {
                    self.published_loaded = self.kept;
                    Some(self.kept)
                } else {
                    None
                };
                Progress { generation: self.generation, total: None, loaded, preview, outcome: None }
            },
        }
    }

    /// Ends the load, at end of file, on a read error, or where the file
    /// could not be opened: publishes the final `bytes_loaded` and the
    /// outcome, whose content is the text assembled so far.
    pub fn finish(self) -> (p: Progress)
        requires
            self.wf(),
            self@.announced,
        ensures
            finish_step(self@, p),
    {
        let loaded = self.kept;
        Progress {
            generation: self.generation,
            total: None,
            loaded: Some(loaded),
            preview: None,
            outcome: Some(LoadOutcome { name: self.path, content: self.content }),
        }
    }
}

/// What taking `chunk` does: the chunk joins the history; counted in bytes
/// read, the preview is the whole text while it is due, and `bytes_loaded`
/// is the kept count when due or when the file is cut short.
pub open spec fn chunk_step(pre: ReaderView, chunk: Seq<u8>, post: ReaderView, p: Progress) -> bool {
    let valid = valid_utf8(chunk);
    let loaded_now = valid && (spec_loaded_due(pre.large, post.read() as usize)
        || post.truncated());
    &&& chunk.len() > 0
    &&& post.path == pre.path
    &&& post.generation == pre.generation
    &&& post.large == pre.large
    &&& post.total == pre.total
    &&& post.announced == pre.announced
    &&& post.chunks == pre.chunks.push(chunk)
    &&& post.published_loaded == if loaded_now {
        post.kept() as usize
    } else {
        pre.published_loaded
    }
    &&& p.generation == pre.generation
    &&& p.total.is_none()
    &&& p.outcome.is_none()
    &&& p.loaded == if loaded_now {
        Some(post.kept() as usize)
    } else {
        None
    }
    &&& p.preview.is_some() == (valid && spec_preview_due(post.read() as usize))
    &&& p.preview.is_some() ==> p.preview->0@ == post.content()
}

/// What ending a load publishes: the kept count and the outcome.
pub open spec fn finish_step(pre: ReaderView, p: Progress) -> bool {
    &&& p.generation == pre.generation
    &&& p.total.is_none()
    &&& p.preview.is_none()
    &&& p.loaded == Some(pre.kept() as usize)
    &&& p.outcome.is_some()
    &&& p.outcome->0.name@ == pre.path
    &&& p.outcome->0.content@ == pre.content()
}

/// A file within the normal policy, handed in as its consecutive
/// `CHUNK_SIZE`-byte pieces, is kept whole: the final content is the text of
/// every valid piece, with no marker, no longer in bytes than the file, and
/// where every piece was valid its encoding is the file itself.
pub proof fn lemma_normal_load_keeps_all(file: Seq<u8>, file_size: u64, rd: ChunkedReader, p: Progress)
    requires
        rd.wf(),
        file.len() == file_size,
        file_size <= LARGE_FILE_THRESHOLD,
        rd@.large == spec_is_large(file_size),
        rd@.chunks == chunks_of(file),
        finish_step(rd@, p),
    ensures
        p.outcome->0.content@ == kept_text(chunks_of(file)),
        utf8_len(p.outcome->0.content@) == rd@.kept(),
        rd@.kept() <= file.len(),
        p.loaded == Some(rd@.kept() as usize),
        (forall|i: int|
            0 <= i < chunks_of(file).len() ==> valid_utf8(#[trigger] chunks_of(file)[i]))
            ==> encode_utf8(p.outcome->0.content@) == file,
{
    lemma_kept_text_encodes(rd@.chunks);
    lemma_chunks_of_rebuild(file);
}

/// A file under the large-file policy keeps at most `MAX_LARGE_CONTENT`
/// bytes of text, so its content is at most that many bytes plus the
/// marker. Once it reaches that many, reading stops and the content is that
/// text followed by the truncation marker; a file that ends sooner is kept
/// whole, without a marker.
pub proof fn lemma_large_load_is_capped(file_size: u64, rd: ChunkedReader, p: Progress)
    requires
        rd.wf(),
        file_size > LARGE_FILE_THRESHOLD,
        rd@.large == spec_is_large(file_size),
        finish_step(rd@, p),
    ensures
        utf8_len(kept_text(rd@.chunks)) <= MAX_LARGE_CONTENT,
        utf8_len(p.outcome->0.content@) <= MAX_LARGE_CONTENT + utf8_len(TRUNCATION_MARKER@),
        rd@.truncated() ==> rd@.kept() == MAX_LARGE_CONTENT && rd@.read_limit() == 0
            && p.outcome->0.content@ == kept_text(rd@.chunks) + TRUNCATION_MARKER@,
        !rd@.truncated() ==> p.outcome->0.content@ == kept_text(rd@.chunks) && rd@.read_limit()
            > 0 || rd@.read() == usize::MAX,
{
    lemma_kept_text_encodes(rd@.chunks);
    lemma_encode_concat(kept_text(rd@.chunks), TRUNCATION_MARKER@);
}

/// The total is published once, first: chunks are taken and the load ends
/// only after `announce`, and no later step writes the total, so the cell's
/// total stays as it was.
pub proof fn lemma_total_is_stable(
    pre: ReaderView,
    chunk: Seq<u8>,
    post: ReaderView,
    p: Progress,
    c0: ProgressCell,
    c1: ProgressCell,
)
    requires
        chunk_step(pre, chunk, post, p) || finish_step(pre, p),
        applied(c0, p, c1),
    ensures
        c1.total == c0.total,
{
}

/// `bytes_loaded` never goes down while a chunk is taken, the cell follows
/// the last value the reader published, and that value is no more than the
/// bytes read, so no more than the total where the file did not grow.
pub proof fn lemma_loaded_never_decreases(
    pre: ChunkedReader,
    chunk: Seq<u8>,
    post: ChunkedReader,
    p: Progress,
    c0: ProgressCell,
    c1: ProgressCell,
)
    requires
        pre.wf(),
        post.wf(),
        chunk_step(pre@, chunk, post@, p),
        c0.loaded == pre@.published_loaded,
        applied(c0, p, c1),
    ensures
        c1.loaded >= c0.loaded,
        c1.loaded == post@.published_loaded,
        c1.loaded <= post@.kept() <= post@.read(),
        post@.read() <= post@.total ==> c1.loaded <= post@.total,
        post@.kept() >= pre@.kept(),
{
    lemma_all_bytes_push(pre@.chunks, chunk);
}

/// When the load ends, `bytes_loaded` reaches the count of kept bytes, from
/// below, and stays within the total where the file did not grow.
pub proof fn lemma_loaded_reaches_kept(rd: ChunkedReader, p: Progress, c0: ProgressCell, c1: ProgressCell)
    requires
        rd.wf(),
        finish_step(rd@, p),
        c0.loaded == rd@.published_loaded,
        applied(c0, p, c1),
    ensures
        c1.loaded >= c0.loaded,
        c1.loaded == rd@.kept(),
        rd@.read() <= rd@.total ==> c1.loaded <= rd@.total,
        c1.pending == p.outcome,
{
}

/// The preview is published only while at most `PREVIEW_LIMIT` bytes are
/// read, and then holds the whole text so far, no longer in bytes than
/// that. Once that many bytes are read it is never published again; ending
/// the load does not publish it either.
pub proof fn lemma_preview_only_early(pre: ChunkedReader, chunk: Seq<u8>, post: ChunkedReader, p: Progress)
    requires
        pre.wf(),
        post.wf(),
        chunk_step(pre@, chunk, post@, p),
    ensures
        p.preview.is_some() ==> post@.read() <= PREVIEW_LIMIT && utf8_len(p.preview->0@)
            == post@.kept() && post@.kept() <= post@.read(),
        pre@.read() >= PREVIEW_LIMIT ==> p.preview.is_none(),
        forall|q: Progress| finish_step(pre@, q) ==> q.preview.is_none(),
{
    lemma_all_bytes_push(pre@.chunks, chunk);
    lemma_kept_text_encodes(post@.chunks);
}

} // verus!

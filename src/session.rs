//! The load session: the editor state that starts loads, polls the progress
//! cell once per frame, and adopts a finished result exactly once.
use vstd::prelude::*;
use crate::cell::{applied, ProgressCell};
use crate::reader::Progress;

verus! {

/// Frames to wait before a load requested at start-up begins.
pub const STARTUP_FRAMES: u32 = 3;

/// What the caller needs to start the background worker of a load.
pub struct LoadTicket {
    pub path: String,
    pub generation: u64,
}

/// What one poll reports.
pub struct LoadStatus {
    pub is_loading: bool,
    pub loaded: usize,
    pub total: usize,
}

/// The generation that follows `g`.
pub open spec fn next_generation(g: u64) -> u64 {
    if g == u64::MAX {
        0
    } else {
        (g + 1) as u64
    }
}

pub struct TextEditorApp {
    /// The text on display.
    pub text: String,
    /// The file the text belongs to.
    pub filename: Option<String>,
    pub is_modified: bool,
    /// A load has started and its result has not been adopted yet.
    pub is_loading: bool,
    /// The path of the load in progress.
    pub loading_filename: Option<String>,
    /// A path to load once the first frames are drawn.
    pub pending_file_to_load: Option<String>,
    /// Frames counted since the session started, up to `STARTUP_FRAMES`.
    pub frames_seen: u32,
    /// The generation of the latest load or reset.
    pub generation: u64,
    /// `bytes_loaded` as seen at the last poll.
    pub bytes_loaded: usize,
    /// `bytes_total` as seen at the last poll.
    pub total_bytes: usize,
}

impl Default for TextEditorApp {
    fn default() -> (r: TextEditorApp)
        ensures
            r.is_blank(),
            r.frames_seen == 0,
            r.generation == 0,
            r.pending_file_to_load.is_none(),
    {
        TextEditorApp {
            text: String::new(),
            filename: None,
            is_modified: false,
            is_loading: false,
            loading_filename: None,
            pending_file_to_load: None,
            frames_seen: 0,
            generation: 0,
            bytes_loaded: 0,
            total_bytes: 0,
        }
    }
}

impl TextEditorApp {
    /// The cell is this session's: it takes publications of the session's
    /// latest load only. `default` with `ProgressCell::new`, `new_file` and
    /// `start_loading_file` establish it, and `poll_tick` keeps it.
    pub open spec fn owns(&self, cell: ProgressCell) -> bool {
        cell.generation == self.generation
    }

    /// An idle session on an empty, unnamed, unmodified document.
    pub open spec fn is_blank(&self) -> bool {
        &&& self.text@.len() == 0
        &&& self.filename.is_none()
        &&& !self.is_modified
        &&& !self.is_loading
        &&& self.loading_filename.is_none()
        &&& self.bytes_loaded == 0
        &&& self.total_bytes == 0
    }

    fn advance_generation(&mut self)
        ensures
            final(self).generation == next_generation(old(self).generation),
            final(self).text == old(self).text,
            final(self).filename == old(self).filename,
            final(self).is_modified == old(self).is_modified,
            final(self).is_loading == old(self).is_loading,
            final(self).loading_filename == old(self).loading_filename,
            final(self).pending_file_to_load == old(self).pending_file_to_load,
            final(self).frames_seen == old(self).frames_seen,
            final(self).bytes_loaded == old(self).bytes_loaded,
            final(self).total_bytes == old(self).total_bytes,
    {
        if self.generation == u64::MAX {
            self.generation = 0;
        } else {
            self.generation = self.generation + 1;
        }
    }

    /// Starts a blank document. A load in progress is abandoned: the cell
    /// moves on to a new generation, so its worker's writes are ignored.
    pub fn new_file(&mut self, cell: &mut ProgressCell)
        ensures
            final(self).is_blank(),
            final(self).pending_file_to_load.is_none(),
            final(self).generation == next_generation(old(self).generation),
            final(self).frames_seen == old(self).frames_seen,
            final(cell).is_cleared(final(self).generation),
            final(self).owns(*final(cell)),
    {
        self.text = String::new();
        self.filename = None;
        self.is_modified = false;
        self.is_loading = false;
        self.loading_filename = None;
        self.pending_file_to_load = None;
        self.bytes_loaded = 0;
        self.total_bytes = 0;
        self.advance_generation();
        cell.reset(self.generation);
    }

    /// Begins a load of `file_path`: the session is loading, the cell is
    /// cleared for a new generation, and the ticket tells the caller what to
    /// hand to the worker. Never blocks; a file that cannot be read shows up
    /// later as an outcome with empty content.
    pub fn start_loading_file(&mut self, file_path: String, cell: &mut ProgressCell) -> (t:
        LoadTicket)
        ensures
            started(*old(self), file_path, *final(self), *final(cell), t),
    {
        self.is_loading = true;
        self.loading_filename = Some(file_path.clone());
        self.bytes_loaded = 0;
        self.total_bytes = 0;
        self.advance_generation();
        cell.reset(self.generation);
        LoadTicket { path: file_path, generation: self.generation }
    }

    /// Counts a frame. Once `STARTUP_FRAMES` frames are counted, a load
    /// requested at start-up begins, and its ticket is returned.
    pub fn frame_tick(&mut self, cell: &mut ProgressCell) -> (t: Option<LoadTicket>)
        ensures
            final(self).frames_seen == if old(self).frames_seen < STARTUP_FRAMES {
                (old(self).frames_seen + 1) as u32
            } else {
                old(self).frames_seen
            },
            ({
                let due = final(self).frames_seen >= STARTUP_FRAMES
                    && old(self).pending_file_to_load.is_some();
                &&& t.is_some() == due
                &&& due ==> {
                    let s = TextEditorApp { frames_seen: final(self).frames_seen,
                        pending_file_to_load: None, ..*old(self) };
                    started(s, old(self).pending_file_to_load->0, *final(self), *final(cell), t->0)
                }
                &&& !due ==> TextEditorApp { frames_seen: old(self).frames_seen, ..*final(self) }
                    == *old(self) && *final(cell) == *old(cell)
            }),
    {
        if self.frames_seen < STARTUP_FRAMES {
            self.frames_seen = self.frames_seen + 1;
        }
        if self.frames_seen >= STARTUP_FRAMES {
            match self.pending_file_to_load.take() {
                Some(path) => Some(self.start_loading_file(path, cell)),
                None => None,
            }
        } else {
            None
        }
    }

    /// One poll of the cell. While a load of the session's generation runs,
    /// a non-empty preview replaces the text on display; once the cell holds
    /// the result, it is taken out, its content and name become the
    /// session's, the session is idle again and the preview is cleared.
    /// Either way the byte counts are copied from the cell.
    pub fn poll_tick(&mut self, cell: &mut ProgressCell) -> (s: LoadStatus)
        ensures
            polled(*old(self), *old(cell), *final(self), *final(cell), s),
            old(self).owns(*old(cell)) ==> final(self).owns(*final(cell)),
    {
        let live = self.is_loading && cell.generation == self.generation;
        if live {
            if !cell.preview.as_str().is_empty() {
                self.text = cell.preview.clone();
            }
            match cell.pending.take() {
                Some(outcome) => {
                    let crate::reader::LoadOutcome { name, content } = outcome;
                    self.text = content;
                    self.filename = Some(name);
                    self.is_modified = false;
                    self.is_loading = false;
                    self.loading_filename = None;
                    cell.preview = String::new();
                },
                None => {},
            }
        }
        self.bytes_loaded = cell.loaded;
        self.total_bytes = cell.total;
        LoadStatus { is_loading: self.is_loading, loaded: cell.loaded, total: cell.total }
    }

    /// The text was saved to `path`.
    pub fn mark_saved(&mut self, path: String)
        ensures
            final(self).filename == Some(path),
            !final(self).is_modified,
            final(self).text == old(self).text,
            final(self).is_loading == old(self).is_loading,
    {
        self.filename = Some(path);
        self.is_modified = false;
    }

    /// The user edited the text; edits while a load runs do not count.
    pub fn note_edit(&mut self)
        ensures
            final(self).is_modified == (old(self).is_modified || !old(self).is_loading),
            final(self).text == old(self).text,
            final(self).is_loading == old(self).is_loading,
    {
        if !self.is_loading {
            self.is_modified = true;
        }
    }
}

/// What starting a load of `path` does to the session and the cell.
pub open spec fn started(
    pre: TextEditorApp,
    path: String,
    post: TextEditorApp,
    cell: ProgressCell,
    t: LoadTicket,
) -> bool {
    &&& post.is_loading
    &&& post.loading_filename == Some(path)
    &&& post.generation == next_generation(pre.generation)
    &&& post.bytes_loaded == 0
    &&& post.total_bytes == 0
    &&& post.text == pre.text
    &&& post.filename == pre.filename
    &&& post.is_modified == pre.is_modified
    &&& post.pending_file_to_load == pre.pending_file_to_load
    &&& post.frames_seen == pre.frames_seen
    &&& cell.is_cleared(post.generation)
    &&& post.owns(cell)
    &&& t.path == path
    &&& t.generation == post.generation
}

/// What one poll does. `live`: a load of the session's generation runs;
/// `done`: its result is in the cell and is adopted now.
pub open spec fn polled(
    pre: TextEditorApp,
    pre_cell: ProgressCell,
    post: TextEditorApp,
    post_cell: ProgressCell,
    s: LoadStatus,
) -> bool {
    let live = pre.is_loading && pre_cell.generation == pre.generation;
    let done = live && pre_cell.pending.is_some();
    &&& post.text == if done {
        pre_cell.pending->0.content
    } else if live && pre_cell.preview@.len() > 0 {
        pre_cell.preview
    } else {
        pre.text
    }
    &&& post.filename == if done {
        Some(pre_cell.pending->0.name)
    } else {
        pre.filename
    }
    &&& post.is_modified == (pre.is_modified && !done)
    &&& post.is_loading == (pre.is_loading && !done)
    &&& post.loading_filename == if done {
        None
    } else {
        pre.loading_filename
    }
    &&& post.pending_file_to_load == pre.pending_file_to_load
    &&& post.frames_seen == pre.frames_seen
    &&& post.generation == pre.generation
    &&& post.bytes_loaded == pre_cell.loaded
    &&& post.total_bytes == pre_cell.total
    &&& post_cell.generation == pre_cell.generation
    &&& post_cell.loaded == pre_cell.loaded
    &&& post_cell.total == pre_cell.total
    &&& post_cell.pending == if done {
        None
    } else {
        pre_cell.pending
    }
    &&& post_cell.preview@ == if done {
        Seq::empty()
    } else {
        pre_cell.preview@
    }
    &&& !done ==> post_cell.preview == pre_cell.preview
    &&& s.is_loading == post.is_loading
    &&& s.loaded == pre_cell.loaded
    &&& s.total == pre_cell.total
}

/// A finished result is adopted exactly once: the poll that finds it takes
/// it out of the cell and leaves the session idle with its content and name;
/// a later poll, with no new load started, finds nothing and changes neither
/// the text nor the name.
pub proof fn lemma_result_adopted_once(
    a0: TextEditorApp,
    c0: ProgressCell,
    a1: TextEditorApp,
    c1: ProgressCell,
    s1: LoadStatus,
    a2: TextEditorApp,
    c2: ProgressCell,
    s2: LoadStatus,
)
    requires
        a0.is_loading,
        a0.owns(c0),
        c0.pending.is_some(),
        polled(a0, c0, a1, c1, s1),
        polled(a1, c1, a2, c2, s2),
    ensures
        !s1.is_loading,
        !a1.is_loading,
        a1.text == c0.pending->0.content,
        a1.filename == Some(c0.pending->0.name),
        c1.pending.is_none(),
        c2.pending.is_none(),
        !s2.is_loading,
        !a2.is_loading,
        a2.text == a1.text,
        a2.filename == a1.filename,
        a2.owns(c2),
{
}

/// A reset silences the load it abandons: after `new_file`, the cell
/// refuses every publication of the session's earlier generation, so its
/// preview stays empty until the next load starts.
pub proof fn lemma_reset_refuses_old_load(
    a0: TextEditorApp,
    a1: TextEditorApp,
    c1: ProgressCell,
    p: Progress,
    c2: ProgressCell,
)
    requires
        a1.generation == next_generation(a0.generation),
        c1.is_cleared(a1.generation),
        p.generation == a0.generation,
        p.generation == c1.generation ==> applied(c1, p, c2),
        p.generation != c1.generation ==> c2 == c1,
    ensures
        p.generation != c1.generation,
        c2 == c1,
        c2.preview@.len() == 0,
        c2.pending.is_none(),
{
}

} // verus!

//! The progress cell: the state that the worker publishes into and the
//! session polls. Each load has a generation; the cell takes publications of
//! its current generation only, so a worker whose load was superseded can no
//! longer write into it.
use vstd::prelude::*;
use crate::reader::{LoadOutcome, Progress};

verus! {

pub struct ProgressCell {
    /// The load whose publications the cell takes.
    pub generation: u64,
    /// The finished result, until the session takes it.
    pub pending: Option<LoadOutcome>,
    /// A short prefix of the text, shown while the load runs.
    pub preview: String,
    pub loaded: usize,
    pub total: usize,
}

impl ProgressCell {
    /// The cell holds nothing and waits for publications of `generation`.
    pub open spec fn is_cleared(&self, generation: u64) -> bool {
        &&& self.generation == generation
        &&& self.pending.is_none()
        &&& self.preview@.len() == 0
        &&& self.loaded == 0
        &&& self.total == 0
    }

    pub fn new() -> (c: ProgressCell)
        ensures
            c.is_cleared(0),
    {
        ProgressCell { generation: 0, pending: None, preview: String::new(), loaded: 0, total: 0 }
    }

    /// Clears all four slots and moves the cell on to `generation`.
    pub fn reset(&mut self, generation: u64)
        ensures
            final(self).is_cleared(generation),
    {
        self.generation = generation;
        self.pending = None;
        self.preview = String::new();
        self.loaded = 0;
        self.total = 0;
    }

    /// Writes what `p` carries into the cell, if `p` belongs to the cell's
    /// generation; returns whether it did. A stale publication changes
    /// nothing.
    pub fn apply(&mut self, p: Progress) -> (accepted: bool)
        ensures
            accepted == (p.generation == old(self).generation),
            accepted ==> applied(*old(self), p, *final(self)),
            !accepted ==> *final(self) == *old(self),
    {
        if p.generation != self.generation {
            return false;
        }
        let Progress { generation: _, total, loaded, preview, outcome } = p;
        match total {
            Some(t) => {
                self.total = t;
            },
            None => {},
        }
        match loaded {
            Some(n) => {
                self.loaded = n;
            },
            None => {},
        }
        match preview {
            Some(s) => {
                self.preview = s;
            },
            None => {},
        }
        match outcome {
            Some(o) => {
                self.pending = Some(o);
            },
            None => {},
        }
        true
    }
}

/// The cell after `p` was written into it: each slot that `p` carries takes
/// its value, the others keep theirs.
pub open spec fn applied(pre: ProgressCell, p: Progress, post: ProgressCell) -> bool {
    &&& post.generation == pre.generation
    &&& post.total == (match p.total {
        Some(t) => t,
        None => pre.total,
    })
    &&& post.loaded == (match p.loaded {
        Some(n) => n,
        None => pre.loaded,
    })
    &&& post.preview == (match p.preview {
        Some(s) => s,
        None => pre.preview,
    })
    &&& post.pending == (match p.outcome {
        Some(o) => Some(o),
        None => pre.pending,
    })
}

} // verus!

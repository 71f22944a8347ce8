//! A background, progressively observable file loader.
//!
//! A load reads a file in small chunks off the foreground thread. The
//! [`reader::ChunkedReader`] decides what each chunk adds and what to
//! publish; the [`cell::ProgressCell`] holds what was published, tagged by
//! load generation; the [`session::TextEditorApp`] starts loads and polls the
//! cell once per frame, adopting a finished result exactly once.
use vstd::prelude::*;

pub mod cell;
pub mod policy;
pub mod reader;
pub mod session;
pub mod text;

verus! {

} // verus!

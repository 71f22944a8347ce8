//! The size rules of a load: when a file counts as large, how much of it is
//! kept, and how often progress is published.
use vstd::prelude::*;

verus! {

/// Size in bytes of one read from the file.
pub const CHUNK_SIZE: usize = 512;

/// A file larger than this many bytes is read under the large-file policy.
pub const LARGE_FILE_THRESHOLD: u64 = 100 * 1024 * 1024;

/// Under the large-file policy, reading stops once this many bytes are kept.
pub const MAX_LARGE_CONTENT: usize = 10 * 1024 * 1024;

/// The preview is refreshed only while at most this many bytes are read.
pub const PREVIEW_LIMIT: usize = 2048;

/// Within the preview window, a refresh is due when the count of bytes read
/// lies in the first `PREVIEW_WINDOW` bytes of a chunk-sized stride.
pub const PREVIEW_WINDOW: usize = 256;

/// Stride of `bytes_loaded` publications under the normal policy.
pub const NORMAL_LOADED_STRIDE: usize = 2048;

/// Stride of `bytes_loaded` publications under the large-file policy.
pub const LARGE_LOADED_STRIDE: usize = 4096;

/// Appended to the content of a file that was cut short.
pub const TRUNCATION_MARKER: &'static str = "\n\n... (file truncated - too large to display completely)";

/// Whether a file of `file_size` bytes falls under the large-file policy.
pub open spec fn spec_is_large(file_size: u64) -> bool {
    file_size > LARGE_FILE_THRESHOLD
}

/// Whether a file of `file_size` bytes falls under the large-file policy.
pub fn is_large(file_size: u64) -> (r: bool)
    ensures
        r == spec_is_large(file_size),
{
    file_size > LARGE_FILE_THRESHOLD
}

/// Whether the preview is refreshed once `read` bytes are read.
pub open spec fn spec_preview_due(read: usize) -> bool {
    read <= PREVIEW_LIMIT && read % CHUNK_SIZE < PREVIEW_WINDOW
}

/// Whether the preview is refreshed once `read` bytes are read.
pub fn preview_due(read: usize) -> (r: bool)
    ensures
        r == spec_preview_due(read),
        r ==> read <= PREVIEW_LIMIT,
{
    read <= PREVIEW_LIMIT && read % CHUNK_SIZE < PREVIEW_WINDOW
}

/// The stride of `bytes_loaded` publications under a policy.
pub open spec fn spec_loaded_stride(large: bool) -> usize {
    if large {
        LARGE_LOADED_STRIDE
    } else {
        NORMAL_LOADED_STRIDE
    }
}

/// Whether `bytes_loaded` is published once `read` bytes are read.
pub open spec fn spec_loaded_due(large: bool, read: usize) -> bool {
    read % spec_loaded_stride(large) < CHUNK_SIZE
}

/// Whether `bytes_loaded` is published once `read` bytes are read.
pub fn loaded_due(large: bool, read: usize) -> (r: bool)
    ensures
        r == spec_loaded_due(large, read),
{
    let stride: usize = if large {
        LARGE_LOADED_STRIDE
    } else {
        NORMAL_LOADED_STRIDE
    };
    read % stride < CHUNK_SIZE
}

/// Milliseconds the worker pauses after each chunk under a policy.
pub fn pause_millis(large: bool) -> (r: u64)
    ensures
        r == if large {
            2u64
        } else {
            1u64
        },
{
    if large {
        2
    } else {
        1
    }
}

} // verus!

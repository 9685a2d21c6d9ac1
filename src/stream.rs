//! The chunk-stream capability: what one non-blocking poll of a chunk
//! source can report, and the errors that travel with it.

use vstd::prelude::*;

use std::io;

use bytes::Bytes;

use crate::chunk::{bytes_len, bytes_of, empty_bytes};
use crate::size_limit::SizeLimitReached;

verus! {

#[verifier::external_type_specification]
#[verifier::external_body]
pub struct ExIoError(io::Error);

/// Why a stream failed.
pub enum StreamError {
    /// The configured ceiling was crossed.
    SizeLimit(SizeLimitReached),
    /// An error of the underlying source, handed on unchanged.
    Io(io::Error),
}

/// The outcome of one poll of a chunk stream.
pub enum StreamPoll {
    /// A chunk is ready; it is never empty.
    Ready(Bytes),
    /// The stream is exhausted, now and on every later poll.
    End,
    /// Nothing yet: poll again after the source signals readiness.
    Pending,
    /// The stream failed.
    Failed(StreamError),
}

impl StreamPoll {
    /// A ready chunk holds at least one byte.
    pub open spec fn chunk_non_empty(self) -> bool {
        self matches StreamPoll::Ready(b) ==> bytes_of(b).len() > 0
    }
}

/// Polls a single in-memory buffer as a stream: its whole content comes
/// out as one chunk, after which the buffer is empty and the stream ends.
pub fn poll_bytes_once(b: &mut Bytes) -> (r: StreamPoll)
    ensures
        bytes_of(*old(b)).len() == 0 ==> r is End && bytes_of(*final(b)) == bytes_of(*old(b)),
        bytes_of(*old(b)).len() > 0 ==> (r matches StreamPoll::Ready(c) && bytes_of(c) == bytes_of(
            *old(b),
        ) && bytes_of(*final(b)).len() == 0),
        r.chunk_non_empty(),
{
    if bytes_len(b) == 0 {
        StreamPoll::End
    } else {
        let mut out = empty_bytes();
        std::mem::swap(&mut out, b);
        StreamPoll::Ready(out)
    }
}

} // verus!

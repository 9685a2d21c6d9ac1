//! Turns a fill-buffer reader into a chunk stream, under a ceiling.
//!
//! The stream owns the reader and a scratch buffer. A poll asks
//! `reader_and_scratch` for both (none once the stream has ended) and, where
//! the buffer has no room, `read_capacity` for how much room to reserve; it
//! fills the buffer from the reader, splits off what was read, and hands the
//! outcome to `on_read`, which decides what the poll reports.

use vstd::prelude::*;

use std::io;

use bytes::{Bytes, BytesMut};

use crate::chunk::{bytes_len, bytes_of};
use crate::size_limit::SizeLimit;
use crate::stream::{StreamError, StreamPoll};

verus! {

#[verifier::external_type_specification]
#[verifier::external_body]
pub struct ExBytesMut(BytesMut);

/// Relies on `BytesMut::new`: a scratch buffer that has allocated nothing.
#[verifier::external_body]
fn new_scratch() -> (r: BytesMut) {
    BytesMut::new()
}

/// What one fill of the buffer from the reader gave.
pub enum ReadEvent {
    /// The reader is not ready.
    Pending,
    /// The reader failed.
    Failed(io::Error),
    /// The bytes that were read; none means the reader is exhausted.
    Filled(Bytes),
}

/// A chunk stream over a reader; it ends for good once the reader is
/// exhausted or has failed, or the ceiling is crossed.
pub struct ReaderStream<R> {
    reader: Option<R>,
    scratch: BytesMut,
    size_limit: SizeLimit,
}

impl<R> ReaderStream<R> {
    /// The reader is still held: the stream has not ended.
    pub closed spec fn is_active(&self) -> bool {
        self.reader is Some
    }

    /// The reader, while the stream has not ended.
    pub closed spec fn spec_reader(&self) -> Option<R> {
        self.reader
    }

    /// The byte count and ceiling.
    pub closed spec fn limit_state(&self) -> SizeLimit {
        self.size_limit
    }

    /// A stream over `reader` without a ceiling.
    pub fn new(reader: R) -> (r: Self)
        ensures
            r.is_active(),
            r.spec_reader() == Some(reader),
            r.limit_state().spec_read() == 0,
            r.limit_state().spec_max() == 0,
    {
        ReaderStream { reader: Some(reader), scratch: new_scratch(), size_limit: SizeLimit::empty() }
    }

    /// A stream over `reader` that fails once more than `max_size` bytes
    /// were read.
    pub fn limit(reader: R, max_size: usize) -> (r: Self)
        requires
            max_size > 0,
        ensures
            r.is_active(),
            r.spec_reader() == Some(reader),
            r.limit_state().spec_read() == 0,
            r.limit_state().spec_max() == max_size,
    {
        ReaderStream {
            reader: Some(reader),
            scratch: new_scratch(),
            size_limit: SizeLimit::new(max_size),
        }
    }

    /// Whether the stream has ended.
    pub fn is_ended(&self) -> (r: bool)
        ensures
            r == !self.is_active(),
    {
        self.reader.is_none()
    }

    /// The reader to fill from and the scratch buffer to fill; none once
    /// the stream has ended, in which case the poll reports the end of the
    /// stream. The buffer is kept between polls, so that room is reserved
    /// only when it has none left.
    pub fn reader_and_scratch(&mut self) -> (r: Option<(&mut R, &mut BytesMut)>)
        ensures
            r is Some <==> old(self).is_active(),
            r matches Some(p) ==> *p.0 == old(self).spec_reader().unwrap()
                && final(self).spec_reader() == Some(*final(p.0)),
            final(self).is_active() == old(self).is_active(),
            final(self).limit_state() == old(self).limit_state(),
    {
        match &mut self.reader {
            Some(r) => Some((r, &mut self.scratch)),
            None => None,
        }
    }

    /// How many bytes to reserve for the next fill: what the ceiling
    /// leaves, at most the default capacity, and at least one byte, so
    /// that a read past the ceiling is still seen.
    pub fn read_capacity(&self) -> (r: usize)
        ensures
            r == if self.limit_state().spec_new_capacity() == 0 {
                1
            } else {
                self.limit_state().spec_new_capacity()
            },
    {
        let cap = self.size_limit.new_capacity();
        if cap == 0 {
            1
        } else {
            cap
        }
    }

    /// Decides what a poll reports, given what the fill gave.
    pub fn on_read(&mut self, ev: ReadEvent) -> (r: StreamPoll)
        ensures
            r.chunk_non_empty(),
            final(self).limit_state().spec_max() == old(self).limit_state().spec_max(),
            !old(self).is_active() ==> r is End && !final(self).is_active(),
            !(r is Ready || r is Pending) ==> !final(self).is_active(),
            old(self).is_active() ==> match ev {
                ReadEvent::Pending => r is Pending && final(self).is_active()
                    && final(self).limit_state() == old(self).limit_state(),
                ReadEvent::Failed(e) => r == StreamPoll::Failed(StreamError::Io(e)),
                ReadEvent::Filled(b) => {
                    let n = bytes_of(b).len();
                    let total = if old(self).limit_state().spec_read() + n <= usize::MAX {
                        old(self).limit_state().spec_read() + n
                    } else {
                        usize::MAX as nat
                    };
                    let max = old(self).limit_state().spec_max();
                    if n == 0 {
                        r is End
                    } else if max > 0 && total > max {
                        r matches StreamPoll::Failed(StreamError::SizeLimit(e)) && e.0 == max
                    } else {
                        r == StreamPoll::Ready(b) && final(self).is_active()
                            && final(self).limit_state().spec_read() == total
                    }
                },
            },
    {
        if self.reader.is_none() {
            return StreamPoll::End;
        }
        match ev {
            ReadEvent::Pending => StreamPoll::Pending,
            ReadEvent::Failed(e) => {
                self.reader = None;
                StreamPoll::Failed(StreamError::Io(e))
            },
            ReadEvent::Filled(b) => {
                let n = bytes_len(&b);
                if n == 0 {
                    self.reader = None;
                    return StreamPoll::End;
                }
                match self.size_limit.add_read_res(n) {
                    Ok(()) => StreamPoll::Ready(b),
                    Err(e) => {
                        self.reader = None;
                        StreamPoll::Failed(StreamError::SizeLimit(e))
                    },
                }
            },
        }
    }
}

} // verus!

//! Turns an HTTP engine's push-chunk body into a chunk stream, with the
//! ceiling that the engine's body lacks.
//!
//! A poll asks `body_to_poll` for the engine's body (none once the stream
//! has ended or its ceiling is crossed, and then the poll reports the end
//! of the stream without touching the body), polls it for data, and hands
//! the outcome to `on_data`.

use vstd::prelude::*;

use std::io;

use bytes::Bytes;
use hyper::Body as EngineBody;

use crate::chunk::{bytes_len, bytes_of};
use crate::size_limit::SizeLimit;
use crate::stream::{StreamError, StreamPoll};

verus! {

#[verifier::external_type_specification]
#[verifier::external_body]
pub struct ExHyperBody(EngineBody);

#[verifier::external_type_specification]
#[verifier::external_body]
pub struct ExHyperError(hyper::Error);

/// Relies on `io::Error::new`: wraps the engine's error as an I/O error of
/// kind `Other`.
#[verifier::external_body]
fn io_error_from_engine(e: hyper::Error) -> (r: io::Error) {
    io::Error::new(io::ErrorKind::Other, e)
}

/// What one poll of the engine's body for data gave.
pub enum BodyData {
    /// The body is not ready.
    Pending,
    /// The body has no more data.
    Done,
    /// A chunk of data; an empty one is taken as the end.
    Chunk(Bytes),
    /// The body failed.
    Failed(hyper::Error),
}

/// A chunk stream over an engine's body. It remembers that it has ended,
/// and reports the end on every poll after.
pub struct HyperBodyStream {
    body: EngineBody,
    size_limit: SizeLimit,
    ended: bool,
}

impl HyperBodyStream {
    /// The stream has reported its end or an error.
    pub closed spec fn is_ended(&self) -> bool {
        self.ended
    }

    /// The engine's body.
    pub closed spec fn spec_body(&self) -> EngineBody {
        self.body
    }

    /// The byte count and ceiling.
    pub closed spec fn limit_state(&self) -> SizeLimit {
        self.size_limit
    }

    /// Whether a poll would report the end without polling the body.
    pub open spec fn is_exhausted(&self) -> bool {
        self.is_ended() || self.limit_state().spec_surpassed()
    }

    /// A stream over `body` without a ceiling.
    pub fn new(body: EngineBody) -> (r: Self)
        ensures
            !r.is_ended(),
            r.spec_body() == body,
            r.limit_state().spec_read() == 0,
            r.limit_state().spec_max() == 0,
    {
        HyperBodyStream { body, size_limit: SizeLimit::empty(), ended: false }
    }

    /// A stream over `body` that fails once more than `max` bytes came.
    pub fn limit(body: EngineBody, max: usize) -> (r: Self)
        requires
            max > 0,
        ensures
            !r.is_ended(),
            r.spec_body() == body,
            r.limit_state().spec_read() == 0,
            r.limit_state().spec_max() == max,
    {
        HyperBodyStream { body, size_limit: SizeLimit::new(max), ended: false }
    }

    /// Sets the ceiling; it may not be below what was already read.
    pub fn set_size_limit(&mut self, max_size: usize)
        requires
            max_size > 0,
            old(self).limit_state().spec_read() <= max_size,
            !old(self).limit_state().spec_surpassed(),
        ensures
            final(self).limit_state().spec_max() == max_size,
            final(self).limit_state().spec_read() == old(self).limit_state().spec_read(),
            final(self).is_ended() == old(self).is_ended(),
    {
        self.size_limit.set(max_size)
    }

    /// The byte count and ceiling.
    pub fn size_limit(&self) -> (r: &SizeLimit)
        ensures
            *r == self.limit_state(),
    {
        &self.size_limit
    }

    /// The body to poll; none once the stream is exhausted.
    pub fn body_to_poll(&mut self) -> (r: Option<&mut EngineBody>)
        ensures
            r is Some <==> !old(self).is_exhausted(),
            r matches Some(x) ==> *x == old(self).spec_body() && final(self).spec_body()
                == *final(x),
            final(self).is_ended() == old(self).is_ended(),
            final(self).limit_state() == old(self).limit_state(),
    {
        if self.ended || self.size_limit.surpassed() {
            None
        } else {
            Some(&mut self.body)
        }
    }

    /// Decides what a poll reports, given what the body gave.
    pub fn on_data(&mut self, ev: BodyData) -> (r: StreamPoll)
        ensures
            on_data_post(*old(self), ev, *final(self), r),
    {
        if self.ended || self.size_limit.surpassed() {
            return StreamPoll::End;
        }
        match ev {
            BodyData::Pending => StreamPoll::Pending,
            BodyData::Done => {
                self.ended = true;
                StreamPoll::End
            },
            BodyData::Failed(e) => {
                self.ended = true;
                StreamPoll::Failed(StreamError::Io(io_error_from_engine(e)))
            },
            BodyData::Chunk(b) => {
                let n = bytes_len(&b);
                if n == 0 {
                    self.ended = true;
                    return StreamPoll::End;
                }
                match self.size_limit.add_read_res(n) {
                    Ok(()) => StreamPoll::Ready(b),
                    Err(e) => {
                        self.ended = true;
                        StreamPoll::Failed(StreamError::SizeLimit(e))
                    },
                }
            },
        }
    }
}

/// What `on_data` guarantees: from the stream `s` and the body's report
/// `ev`, the stream becomes `t` and the poll reports `r`.
pub open spec fn on_data_post(s: HyperBodyStream, ev: BodyData, t: HyperBodyStream, r: StreamPoll) -> bool {
    &&& r.chunk_non_empty()
    &&& t.limit_state().spec_max() == s.limit_state().spec_max()
    &&& s.is_exhausted() ==> r is End && t.is_exhausted()
    &&& !(r is Ready || r is Pending) ==> t.is_exhausted()
    &&& !s.is_exhausted() ==> match ev {
        BodyData::Pending => r is Pending && t == s,
        BodyData::Done => r is End,
        BodyData::Failed(_) => r matches StreamPoll::Failed(StreamError::Io(_)),
        BodyData::Chunk(b) => {
            let n = bytes_of(b).len();
            let total = if s.limit_state().spec_read() + n <= usize::MAX {
                s.limit_state().spec_read() + n
            } else {
                usize::MAX as nat
            };
            let max = s.limit_state().spec_max();
            if n == 0 {
                r is End && t.limit_state() == s.limit_state()
            } else if max > 0 && total > max {
                r matches StreamPoll::Failed(StreamError::SizeLimit(e)) && e.0 == max
            } else {
                r == StreamPoll::Ready(b) && !t.is_exhausted() && t.limit_state().spec_read()
                    == total
            }
        },
    }
}

/// Once a poll has reported the end of the stream, the next poll reports
/// the end again, whatever the body would give, and leaves the stream
/// exhausted; so does every poll after it.
pub proof fn lemma_end_is_permanent(
    s0: HyperBodyStream,
    ev1: BodyData,
    s1: HyperBodyStream,
    r1: StreamPoll,
    ev2: BodyData,
    s2: HyperBodyStream,
    r2: StreamPoll,
)
    requires
        on_data_post(s0, ev1, s1, r1),
        r1 is End,
        on_data_post(s1, ev2, s2, r2),
    ensures
        r2 is End,
        s2.is_exhausted(),
{
}

} // verus!

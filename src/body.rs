//! The body of a request or response: exactly one representation at a
//! time, consumed once.
//!
//! `R` is the type of a generic fill-buffer reader and `S` that of a
//! generic chunk stream; both are carried through untouched.

use vstd::prelude::*;
use vstd::string::StringSliceAdditionalSpecFns;

use std::time::Duration;

use bytes::Bytes;
use hyper::Body as EngineBody;

use crate::chunk::{
    bytes_copy_from_slice, bytes_from_static, bytes_from_vec, bytes_len, bytes_of, bytes_slice,
};
use crate::hyper_body_stream::HyperBodyStream;
use crate::more_bytes::{all_non_empty, MoreBytes};
use crate::reader_stream::ReaderStream;
use crate::stream_http_body::StreamHttpBody;
use crate::stream_reader::StreamReader;

verus! {

/// The body of a request or response.
pub enum Body<R, S> {
    /// One in-memory buffer.
    Bytes(Bytes),
    /// A queue of in-memory chunks.
    MoreBytes(MoreBytes),
    /// An HTTP engine's body.
    HyperBody(HyperBodyStream),
    /// A generic reader.
    AsyncRead(R),
    /// A generic chunk stream.
    BytesStream(S),
    /// No bytes at all.
    Empty,
}

/// A body seen as a chunk stream.
pub enum BodyStream<R, S> {
    /// One buffer, handed out whole by the first poll.
    Bytes(Bytes),
    /// A queue, handed out chunk by chunk.
    MoreBytes(MoreBytes),
    /// An HTTP engine's body.
    HyperBody(HyperBodyStream),
    /// A generic reader turned into a stream.
    Reader(ReaderStream<R>),
    /// A generic chunk stream.
    Stream(S),
    /// A stream that has already ended.
    Empty,
}

/// A body seen as a fill-buffer reader.
pub enum BodyReader<R, S> {
    /// A generic reader, as it was given.
    Reader(R),
    /// A reader with no bytes.
    Empty,
    /// Any other body, read through its chunk stream.
    Stream(StreamReader<BodyStream<R, S>>),
}

impl<R, S> Body<R, S> {
    /// The number of bytes, where it is known without reading.
    pub open spec fn known_len(&self) -> Option<nat> {
        match self {
            Body::Bytes(b) => Some(bytes_of(*b).len()),
            Body::MoreBytes(m) => Some(m.content().len()),
            Body::Empty => Some(0),
            _ => None,
        }
    }

    /// The bytes, where the body is held as one buffer or is empty.
    pub open spec fn inline_view(&self) -> Option<Seq<u8>> {
        match self {
            Body::Bytes(b) => Some(bytes_of(*b)),
            Body::Empty => Some(Seq::empty()),
            _ => None,
        }
    }

    /// `st` is this body as a chunk stream: a buffer becomes a one-chunk
    /// stream, a queue a stream of its chunks, a reader a stream over it
    /// without a ceiling, the empty body a stream that has ended; streams
    /// stay as they are.
    pub open spec fn is_stream_of(self, st: BodyStream<R, S>) -> bool {
        match self {
            Body::Bytes(b) => st == BodyStream::<R, S>::Bytes(b),
            Body::MoreBytes(m) => st == BodyStream::<R, S>::MoreBytes(m),
            Body::HyperBody(h) => st == BodyStream::<R, S>::HyperBody(h),
            Body::AsyncRead(x) => st matches BodyStream::Reader(s) && s.is_active()
                && s.spec_reader() == Some(x) && s.limit_state().spec_read() == 0
                && s.limit_state().spec_max() == 0,
            Body::BytesStream(s) => st == BodyStream::<R, S>::Stream(s),
            Body::Empty => st is Empty,
        }
    }

    /// An empty body.
    pub fn new() -> (r: Self)
        ensures
            r is Empty,
    {
        Body::Empty
    }

    /// A body that holds `bytes`; no bytes give the empty body.
    pub fn from_bytes(bytes: Bytes) -> (r: Self)
        ensures
            bytes_of(bytes).len() == 0 ==> r is Empty,
            bytes_of(bytes).len() > 0 ==> r == Body::<R, S>::Bytes(bytes),
    {
        if bytes_len(&bytes) == 0 {
            Body::Empty
        } else {
            Body::Bytes(bytes)
        }
    }

    /// A body that holds a copy of `slice`; an empty slice gives the empty
    /// body.
    pub fn copy_from_slice(slice: &[u8]) -> (r: Self)
        ensures
            slice@.len() == 0 ==> r is Empty,
            slice@.len() > 0 ==> (r matches Body::Bytes(b) && bytes_of(b) == slice@),
    {
        if slice.len() == 0 {
            Body::Empty
        } else {
            Body::Bytes(bytes_copy_from_slice(slice))
        }
    }

    /// Whether this is the empty body.
    pub fn is_empty(&self) -> (r: bool)
        ensures
            r == (self is Empty),
    {
        match self {
            Body::Empty => true,
            _ => false,
        }
    }

    /// Hands out the body and leaves the empty body in its place.
    pub fn take(&mut self) -> (r: Self)
        ensures
            r == *old(self),
            *final(self) is Empty,
    {
        let mut out = Body::Empty;
        std::mem::swap(self, &mut out);
        out
    }

    /// Puts `other` in place of the body and hands out the body.
    pub fn replace(&mut self, other: Self) -> (r: Self)
        ensures
            r == *old(self),
            *final(self) == other,
    {
        let mut out = other;
        std::mem::swap(self, &mut out);
        out
    }

    /// The number of bytes where it is known without reading: for a
    /// buffer, a queue (at most `usize::MAX`) and the empty body.
    pub fn len(&self) -> (r: Option<usize>)
        ensures
            r is Some <==> self.known_len() is Some,
            r matches Some(n) ==> n == if self.known_len().unwrap() <= usize::MAX {
                self.known_len().unwrap()
            } else {
                usize::MAX as nat
            },
    {
        match self {
            Body::Bytes(b) => Some(bytes_len(b)),
            Body::MoreBytes(m) => Some(m.len()),
            Body::Empty => Some(0),
            _ => None,
        }
    }

    /// A body over a generic reader.
    pub fn from_async_read(reader: R) -> (r: Self)
        ensures
            r == Body::<R, S>::AsyncRead(reader),
    {
        Body::AsyncRead(reader)
    }

    /// A body over a generic chunk stream.
    pub fn from_bytes_stream(stream: S) -> (r: Self)
        ensures
            r == Body::<R, S>::BytesStream(stream),
    {
        Body::BytesStream(stream)
    }

    /// A body over an HTTP engine's body, without a ceiling.
    pub fn from_hyper_body(body: EngineBody) -> (r: Self)
        ensures
            r matches Body::HyperBody(h) && !h.is_ended() && h.limit_state().spec_read() == 0
                && h.limit_state().spec_max() == 0,
    {
        Body::HyperBody(HyperBodyStream::new(body))
    }

    /// Sets the ceiling of an HTTP engine's body; returns whether the body
    /// is one. The ceiling may not be below what was already read.
    pub fn set_size_limit(&mut self, max_size: usize) -> (r: bool)
        requires
            *old(self) matches Body::HyperBody(h) ==> max_size > 0 && h.limit_state().spec_read()
                <= max_size && !h.limit_state().spec_surpassed(),
        ensures
            r == (*old(self) is HyperBody),
            !r ==> *final(self) == *old(self),
            *old(self) matches Body::HyperBody(h) ==> (*final(self) matches Body::HyperBody(g)
                && g.limit_state().spec_max() == max_size && g.limit_state().spec_read()
                == h.limit_state().spec_read() && g.is_ended() == h.is_ended()),
    {
        match self {
            Body::HyperBody(body) => {
                body.set_size_limit(max_size);
                true
            },
            _ => false,
        }
    }

    /// The body as a chunk stream: a buffer becomes a one-chunk stream, a
    /// queue a stream of its chunks, a reader a stream over it without a
    /// ceiling, the empty body a stream that has ended; streams stay as
    /// they are.
    pub fn into_bytes_stream(self) -> (r: BodyStream<R, S>)
        ensures
            self.is_stream_of(r),
    {
        match self {
            Body::Bytes(b) => BodyStream::Bytes(b),
            Body::MoreBytes(m) => BodyStream::MoreBytes(m),
            Body::HyperBody(h) => BodyStream::HyperBody(h),
            Body::AsyncRead(x) => BodyStream::Reader(ReaderStream::new(x)),
            Body::BytesStream(s) => BodyStream::Stream(s),
            Body::Empty => BodyStream::Empty,
        }
    }

    /// The body as a body for an HTTP engine; the empty body holds no
    /// stream, so it is done without ever being polled.
    pub fn into_http_body(self) -> (r: StreamHttpBody<BodyStream<R, S>>)
        ensures
            (self is Empty) <==> r.spec_stream() is None,
            r.spec_stream() matches Some(st) ==> self.is_stream_of(st),
    {
        match self {
            Body::Empty => StreamHttpBody::new(None),
            other => StreamHttpBody::new(Some(other.into_bytes_stream())),
        }
    }

    /// The body as a reader: a reader stays as it is, the empty body gives
    /// a reader with no bytes, and any other body is read through its
    /// chunk stream.
    pub fn into_async_read(self) -> (r: BodyReader<R, S>)
        ensures
            match self {
                Body::AsyncRead(x) => r == BodyReader::<R, S>::Reader(x),
                Body::Empty => r is Empty,
                _ => r matches BodyReader::Stream(sr) && sr.spec_stream() matches Some(st)
                    && self.is_stream_of(st) && sr.active_bytes().len() == 0,
            },
    {
        match self {
            Body::AsyncRead(x) => BodyReader::Reader(x),
            Body::Empty => BodyReader::Empty,
            other => BodyReader::Stream(StreamReader::new(other.into_bytes_stream())),
        }
    }

    /// The body as a queue, where that needs no reading: a buffer becomes
    /// a one-chunk queue, a queue stays as it is, the empty body gives an
    /// empty queue. Any other body is handed back, to be drained through
    /// its chunk stream.
    pub fn try_into_more_bytes(self) -> (r: Result<MoreBytes, Self>)
        ensures
            match self {
                Body::Bytes(b) => r matches Ok(m) && m.content() == bytes_of(b) && (bytes_of(b).len()
                    > 0 ==> m.chunks() == seq![bytes_of(b)]),
                Body::MoreBytes(m) => r == Ok::<MoreBytes, Self>(m),
                Body::Empty => r matches Ok(m) && m.chunks().len() == 0,
                _ => r == Err::<MoreBytes, Self>(self),
            },
            r matches Ok(m) ==> all_non_empty(m.chunks()),
    {
        match self {
            Body::Bytes(b) => {
                let mut m = MoreBytes::empty();
                m.push(b);
                proof {
                    assert(Seq::<Seq<u8>>::empty().flatten() =~= Seq::<u8>::empty());
                    assert(Seq::<u8>::empty() + bytes_of(b) =~= bytes_of(b));
                }
                Ok(m)
            },
            Body::MoreBytes(m) => {
                proof {
                    use_type_invariant(&m);
                }
                Ok(m)
            },
            Body::Empty => {
                let m = MoreBytes::empty();
                assert(Seq::<Seq<u8>>::empty().flatten() =~= Seq::<u8>::empty());
                Ok(m)
            },
            other => Err(other),
        }
    }

    /// The bytes as one vector, where that needs no reading (a buffer, a
    /// queue, the empty body); any other body is handed back. This copies
    /// every byte.
    pub fn try_into_vec(self) -> (r: Result<Vec<u8>, Self>)
        ensures
            self.known_len() is Some ==> (r matches Ok(v) && match self {
                Body::Bytes(b) => v@ == bytes_of(b),
                Body::MoreBytes(m) => v@ == m.content(),
                _ => v@.len() == 0,
            }),
            self.known_len() is None ==> r == Err::<Vec<u8>, Self>(self),
    {
        match self {
            Body::Bytes(b) => {
                let mut v: Vec<u8> = Vec::new();
                v.extend_from_slice(bytes_slice(&b));
                Ok(v)
            },
            Body::MoreBytes(m) => Ok(m.to_vec()),
            Body::Empty => Ok(Vec::new()),
            other => Err(other),
        }
    }

    /// Whether the body is one buffer or empty, so that its bytes can be
    /// seen without reading.
    pub fn is_inline(&self) -> (r: bool)
        ensures
            r == (self.inline_view() is Some),
    {
        match self {
            Body::Bytes(_) | Body::Empty => true,
            _ => false,
        }
    }

    /// The bytes of a body that is one buffer or empty; none for any other.
    pub fn inline_slice(&self) -> (r: Option<&[u8]>)
        ensures
            r is Some <==> self.inline_view() is Some,
            r matches Some(s) ==> self.inline_view() == Some(s@),
    {
        match self {
            Body::Bytes(b) => Some(bytes_slice(b)),
            Body::Empty => {
                let e: &[u8] = &[];
                assert(e@ =~= Seq::<u8>::empty());
                Some(e)
            },
            _ => None,
        }
    }

    /// Replaces the body by one that holds `bytes`, the result of reading
    /// it whole; from then on its bytes are seen without reading.
    pub fn set_inline(&mut self, bytes: Vec<u8>)
        ensures
            final(self).inline_view() == Some(bytes@),
            bytes@.len() == 0 ==> *final(self) is Empty,
            bytes@.len() > 0 ==> (*final(self) matches Body::Bytes(b) && bytes_of(b) == bytes@),
    {
        *self = Body::from_bytes(bytes_from_vec(bytes));
    }

    /// The body with a time limit on each operation that reads it.
    pub fn add_timeout(self, timeout: Duration) -> (r: BodyWithTimeout<R, S>)
        ensures
            r.spec_body() == self,
            r.spec_timeout() == timeout,
    {
        BodyWithTimeout::new(self, timeout)
    }
}

impl<R, S> Default for Body<R, S> {
    fn default() -> (r: Self)
        ensures
            r is Empty,
    {
        Body::Empty
    }
}

impl<R, S> From<Vec<u8>> for Body<R, S> {
    /// A body that takes over the vector's bytes; none give the empty body.
    fn from(v: Vec<u8>) -> (r: Self)
        ensures
            v@.len() == 0 ==> r is Empty,
            v@.len() > 0 ==> (r matches Body::Bytes(b) && bytes_of(b) == v@),
    {
        Body::from_bytes(bytes_from_vec(v))
    }
}

impl<R, S> vstd::std_specs::convert::FromSpecImpl<Vec<u8>> for Body<R, S> {
    open spec fn obeys_from_spec() -> bool {
        false
    }

    open spec fn from_spec(v: Vec<u8>) -> Self {
        Body::Empty
    }
}

impl<R, S> From<&'static [u8]> for Body<R, S> {
    /// A body that refers to the static bytes; none give the empty body.
    fn from(s: &'static [u8]) -> (r: Self)
        ensures
            s@.len() == 0 ==> r is Empty,
            s@.len() > 0 ==> (r matches Body::Bytes(b) && bytes_of(b) == s@),
    {
        Body::from_bytes(bytes_from_static(s))
    }
}

impl<R, S> vstd::std_specs::convert::FromSpecImpl<&'static [u8]> for Body<R, S> {
    open spec fn obeys_from_spec() -> bool {
        false
    }

    open spec fn from_spec(s: &'static [u8]) -> Self {
        Body::Empty
    }
}

impl<R, S> From<&'static str> for Body<R, S> {
    /// A body that refers to the string's UTF-8 bytes; an empty string
    /// gives the empty body.
    fn from(s: &'static str) -> (r: Self)
        ensures
            s.spec_bytes().len() == 0 ==> r is Empty,
            s.spec_bytes().len() > 0 ==> (r matches Body::Bytes(b) && bytes_of(b)
                == s.spec_bytes()),
    {
        Body::from_bytes(bytes_from_static(s.as_bytes()))
    }
}

impl<R, S> vstd::std_specs::convert::FromSpecImpl<&'static str> for Body<R, S> {
    open spec fn obeys_from_spec() -> bool {
        false
    }

    open spec fn from_spec(s: &'static str) -> Self {
        Body::Empty
    }
}

impl<R, S> From<()> for Body<R, S> {
    /// The empty body.
    fn from(u: ()) -> (r: Self)
        ensures
            r is Empty,
    {
        Body::Empty
    }
}

impl<R, S> vstd::std_specs::convert::FromSpecImpl<()> for Body<R, S> {
    open spec fn obeys_from_spec() -> bool {
        true
    }

    open spec fn from_spec(u: ()) -> Self {
        Body::Empty
    }
}

impl<R, S> From<HyperBodyStream> for Body<R, S> {
    /// A body over an engine's body stream, as it is.
    fn from(h: HyperBodyStream) -> (r: Self)
        ensures
            r == Body::<R, S>::HyperBody(h),
    {
        Body::HyperBody(h)
    }
}

impl<R, S> vstd::std_specs::convert::FromSpecImpl<HyperBodyStream> for Body<R, S> {
    open spec fn obeys_from_spec() -> bool {
        true
    }

    open spec fn from_spec(h: HyperBodyStream) -> Self {
        Body::HyperBody(h)
    }
}

/// A body with a time limit that applies afresh to each operation that
/// reads it.
pub struct BodyWithTimeout<R, S> {
    body: Body<R, S>,
    timeout: Duration,
}

impl<R, S> BodyWithTimeout<R, S> {
    /// The body.
    pub closed spec fn spec_body(&self) -> Body<R, S> {
        self.body
    }

    /// The time limit of each operation.
    pub closed spec fn spec_timeout(&self) -> Duration {
        self.timeout
    }

    /// `body` with the time limit `timeout`.
    pub fn new(body: Body<R, S>, timeout: Duration) -> (r: Self)
        ensures
            r.spec_body() == body,
            r.spec_timeout() == timeout,
    {
        BodyWithTimeout { body, timeout }
    }

    /// An HTTP engine's body with a ceiling of `max_size` bytes and the
    /// time limit `timeout`.
    pub fn from_hyper_body(body: EngineBody, max_size: usize, timeout: Duration) -> (r: Self)
        requires
            max_size > 0,
        ensures
            r.spec_body() matches Body::HyperBody(h) && !h.is_ended()
                && h.limit_state().spec_read() == 0 && h.limit_state().spec_max() == max_size,
            r.spec_timeout() == timeout,
    {
        BodyWithTimeout { body: Body::HyperBody(HyperBodyStream::limit(body, max_size)), timeout }
    }

    /// Hands out the body with the same time limit, and leaves the empty
    /// body in its place.
    pub fn take(&mut self) -> (r: Self)
        ensures
            r.spec_body() == old(self).spec_body(),
            r.spec_timeout() == old(self).spec_timeout(),
            final(self).spec_body() is Empty,
            final(self).spec_timeout() == old(self).spec_timeout(),
    {
        BodyWithTimeout { body: self.body.take(), timeout: self.timeout }
    }

    /// The body, without the time limit.
    pub fn into_body(self) -> (r: Body<R, S>)
        ensures
            r == self.spec_body(),
    {
        self.body
    }

    /// The body.
    pub fn body(&self) -> (r: &Body<R, S>)
        ensures
            *r == self.spec_body(),
    {
        &self.body
    }

    /// The body, to change; operations through it have no time limit.
    pub fn body_mut(&mut self) -> (r: &mut Body<R, S>)
        ensures
            *r == old(self).spec_body(),
            final(self).spec_body() == *final(r),
            final(self).spec_timeout() == old(self).spec_timeout(),
    {
        &mut self.body
    }

    /// Whether the body is the empty body.
    pub fn is_empty(&self) -> (r: bool)
        ensures
            r == (self.spec_body() is Empty),
    {
        self.body.is_empty()
    }

    /// The time limit of each operation.
    pub fn timeout(&self) -> (r: Duration)
        ensures
            r == self.spec_timeout(),
    {
        self.timeout
    }

    /// Sets the time limit of each operation.
    pub fn set_timeout(&mut self, timeout: Duration)
        ensures
            final(self).spec_timeout() == timeout,
            final(self).spec_body() == old(self).spec_body(),
    {
        self.timeout = timeout;
    }

    /// Sets the ceiling of an HTTP engine's body; returns whether the body
    /// is one. The ceiling may not be below what was already read.
    pub fn set_size_limit(&mut self, max_size: usize) -> (r: bool)
        requires
            old(self).spec_body() matches Body::HyperBody(h) ==> max_size > 0
                && h.limit_state().spec_read() <= max_size && !h.limit_state().spec_surpassed(),
        ensures
            r == (old(self).spec_body() is HyperBody),
            !r ==> final(self).spec_body() == old(self).spec_body(),
            old(self).spec_body() matches Body::HyperBody(h) ==> (final(self).spec_body() matches Body::HyperBody(g) && g.limit_state().spec_max() == max_size
                && g.limit_state().spec_read() == h.limit_state().spec_read() && g.is_ended()
                == h.is_ended()),
            final(self).spec_timeout() == old(self).spec_timeout(),
    {
        self.body.set_size_limit(max_size)
    }
}

} // verus!

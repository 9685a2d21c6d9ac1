//! Hands a chunk stream to an HTTP engine's body protocol: one data chunk
//! per poll of the stream, never any trailers, and an end flag that tells
//! whether a stream is held at all.

use vstd::prelude::*;

verus! {

/// A body for an HTTP engine over an optional chunk stream; without a
/// stream the body is done from the start and nothing is ever polled.
pub struct StreamHttpBody<S> {
    stream: Option<S>,
}

impl<S> StreamHttpBody<S> {
    /// The stream that the body reads from, if any.
    pub closed spec fn spec_stream(&self) -> Option<S> {
        self.stream
    }

    /// A body over `stream`.
    pub fn new(stream: Option<S>) -> (r: Self)
        ensures
            r.spec_stream() == stream,
    {
        StreamHttpBody { stream }
    }

    /// The stream to poll for the next data chunk; none means the body is
    /// done.
    pub fn stream_mut(&mut self) -> (r: Option<&mut S>)
        ensures
            r is Some <==> old(self).spec_stream() is Some,
            r matches Some(x) ==> *x == old(self).spec_stream().unwrap() && final(self).spec_stream()
                == Some(*final(x)),
            final(self).spec_stream() is Some <==> old(self).spec_stream() is Some,
    {
        self.stream.as_mut()
    }

    /// Whether the body is known to be done: it holds no stream.
    pub fn is_end_stream(&self) -> (r: bool)
        ensures
            r == (self.spec_stream() is None),
    {
        self.stream.is_none()
    }
}

} // verus!

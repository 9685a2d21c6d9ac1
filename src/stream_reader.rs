//! Turns a chunk stream into a fill-buffer reader.
//!
//! A read asks `read_buffered` first; it hands out bytes of the chunk left
//! over from an earlier read, or says that the stream has to be polled. The
//! outcome of that poll goes to `on_poll`.

use vstd::prelude::*;

use bytes::Bytes;

use crate::chunk::{bytes_len, bytes_of, empty_bytes, split_front};
use crate::more_bytes::{
    all_non_empty, lemma_reads_reassemble, read_out, read_rest, reads_joined, reads_rest,
};
use crate::stream::{StreamError, StreamPoll};

verus! {

/// The number of bytes that a read with room for `room` bytes takes from a
/// chunk of `len` bytes.
pub open spec fn take_count(room: nat, len: nat) -> nat {
    if room < len {
        room
    } else {
        len
    }
}

/// The chunks that a stream reader has yet to hand out: its leftover
/// chunk, if any, then those that its stream will still give.
pub open spec fn pending_chunks(active: Seq<u8>, upcoming: Seq<Seq<u8>>) -> Seq<Seq<u8>> {
    if active.len() > 0 {
        seq![active] + upcoming
    } else {
        upcoming
    }
}

/// A read through a stream reader hands out what a read of the same size
/// from the queue of its pending chunks hands out, and leaves the rest of
/// that queue pending: from the leftover chunk where there is one (as
/// `read_buffered` does), else from the next chunk of the stream (as
/// `on_poll` does); with neither, it hands out nothing.
pub proof fn lemma_read_matches_queue(active: Seq<u8>, upcoming: Seq<Seq<u8>>, room: nat)
    requires
        room > 0,
        all_non_empty(upcoming),
    ensures
        active.len() > 0 ==> ({
            let k = take_count(room, active.len()) as int;
            &&& active.take(k) == read_out(pending_chunks(active, upcoming), room)
            &&& pending_chunks(active.skip(k), upcoming) == read_rest(
                pending_chunks(active, upcoming),
                room,
            )
        }),
        active.len() == 0 && upcoming.len() > 0 ==> ({
            let c = upcoming[0];
            let k = take_count(room, c.len()) as int;
            &&& c.take(k) == read_out(pending_chunks(active, upcoming), room)
            &&& pending_chunks(c.skip(k), upcoming.drop_first()) == read_rest(
                pending_chunks(active, upcoming),
                room,
            )
        }),
        active.len() == 0 && upcoming.len() == 0 ==> read_out(
            pending_chunks(active, upcoming),
            room,
        ).len() == 0,
{
    let q = pending_chunks(active, upcoming);
    if active.len() > 0 {
        let k = take_count(room, active.len()) as int;
        assert(q[0] == active);
        if k == active.len() {
            assert(active.skip(k).len() == 0);
            assert(q.drop_first() =~= upcoming);
        } else {
            assert(q.update(0, active.skip(k)) =~= seq![active.skip(k)] + upcoming);
        }
    } else if upcoming.len() > 0 {
        let c = upcoming[0];
        let k = take_count(room, c.len()) as int;
        assert(c.len() > 0);
        if k == c.len() {
            assert(c.skip(k).len() == 0);
        } else {
            assert(q.update(0, c.skip(k)) =~= seq![c.skip(k)] + upcoming.drop_first());
        }
    }
}

/// Round trip: the bytes of a reader, given as the non-empty chunks
/// `chunks`, pass a reader stream without a ceiling unchanged, one chunk
/// per poll; read back through a stream reader with reads of at least one
/// byte each, as many reads as there are bytes give back exactly those
/// bytes, after which nothing is pending.
pub proof fn lemma_round_trip(chunks: Seq<Seq<u8>>, sizes: Seq<nat>)
    requires
        all_non_empty(chunks),
        forall|i: int| 0 <= i < sizes.len() ==> #[trigger] sizes[i] >= 1,
        sizes.len() >= chunks.flatten().len(),
    ensures
        reads_joined(pending_chunks(Seq::empty(), chunks), sizes) == chunks.flatten(),
        reads_rest(pending_chunks(Seq::empty(), chunks), sizes).len() == 0,
{
    lemma_reads_reassemble(chunks, sizes);
}

/// What `read_buffered` decided.
pub enum ReadStep {
    /// The read is done with these bytes; none means end of input, or no
    /// room in the destination.
    Filled(Bytes),
    /// The stream has to be polled.
    NeedPoll,
}

/// What a read reports after the stream was polled.
pub enum ReadOutcome {
    /// The read is done with these bytes; none means end of input.
    Filled(Bytes),
    /// The stream is not ready.
    Pending,
    /// The stream failed.
    Failed(StreamError),
}

/// A reader over a chunk stream; the stream is dropped once it has ended.
pub struct StreamReader<S> {
    stream: Option<S>,
    active: Bytes,
}

impl<S> StreamReader<S> {
    /// The stream is still held.
    pub closed spec fn has_stream(&self) -> bool {
        self.stream is Some
    }

    /// The stream, until it has ended.
    pub closed spec fn spec_stream(&self) -> Option<S> {
        self.stream
    }

    /// The bytes left over from the last chunk.
    pub closed spec fn active_bytes(&self) -> Seq<u8> {
        bytes_of(self.active)
    }

    /// A reader over `stream`, with nothing left over.
    pub fn new(stream: S) -> (r: Self)
        ensures
            r.has_stream(),
            r.spec_stream() == Some(stream),
            r.active_bytes().len() == 0,
    {
        StreamReader { stream: Some(stream), active: empty_bytes() }
    }

    /// The stream to poll; none once it has ended.
    pub fn stream_mut(&mut self) -> (r: Option<&mut S>)
        ensures
            r is Some <==> old(self).has_stream(),
            r matches Some(x) ==> *x == old(self).spec_stream().unwrap() && final(self).spec_stream()
                == Some(*final(x)),
            final(self).has_stream() == old(self).has_stream(),
            final(self).active_bytes() == old(self).active_bytes(),
    {
        self.stream.as_mut()
    }

    /// Takes up to `room` bytes from the leftover chunk.
    fn fill_from_active(&mut self, room: usize) -> (r: Bytes)
        ensures
            bytes_of(r) == old(self).active_bytes().take(
                take_count(room as nat, old(self).active_bytes().len()) as int,
            ),
            final(self).active_bytes() == old(self).active_bytes().skip(
                take_count(room as nat, old(self).active_bytes().len()) as int,
            ),
            final(self).spec_stream() == old(self).spec_stream(),
    {
        let len = bytes_len(&self.active);
        let n = if room < len {
            room
        } else {
            len
        };
        split_front(&mut self.active, n)
    }

    /// Starts a read into a destination with room for `room` bytes: no
    /// room gives nothing; a leftover chunk gives what fits of it, without
    /// touching the stream; with nothing left over, an ended stream gives
    /// nothing (end of input), else the stream has to be polled.
    pub fn read_buffered(&mut self, room: usize) -> (r: ReadStep)
        ensures
            final(self).spec_stream() == old(self).spec_stream(),
            room == 0 ==> (r matches ReadStep::Filled(b) && bytes_of(b).len() == 0
                && final(self).active_bytes() == old(self).active_bytes()),
            room > 0 && old(self).active_bytes().len() > 0 ==> (r matches ReadStep::Filled(b)
                && bytes_of(b) == old(self).active_bytes().take(
                take_count(room as nat, old(self).active_bytes().len()) as int,
            ) && final(self).active_bytes() == old(self).active_bytes().skip(
                take_count(room as nat, old(self).active_bytes().len()) as int,
            )),
            room > 0 && old(self).active_bytes().len() == 0 && !old(self).has_stream() ==> (
            r matches ReadStep::Filled(b) && bytes_of(b).len() == 0),
            room > 0 && old(self).active_bytes().len() == 0 && old(self).has_stream() ==> (
            r is NeedPoll),
            old(self).active_bytes().len() == 0 ==> final(self).active_bytes().len() == 0,
    {
        if room == 0 {
            return ReadStep::Filled(empty_bytes());
        }
        if bytes_len(&self.active) != 0 {
            return ReadStep::Filled(self.fill_from_active(room));
        }
        if self.stream.is_none() {
            ReadStep::Filled(empty_bytes())
        } else {
            ReadStep::NeedPoll
        }
    }

    /// Finishes a read that had to poll the stream, given what the poll
    /// reported: a new chunk becomes the leftover chunk and what fits of it
    /// is handed out; the end of the stream drops the stream and gives
    /// nothing; an error is handed on and drops the stream too, so that
    /// every later read gives nothing without polling.
    pub fn on_poll(&mut self, room: usize, ev: StreamPoll) -> (r: ReadOutcome)
        ensures
            match ev {
                StreamPoll::Ready(c) => {
                    let k = take_count(room as nat, bytes_of(c).len()) as int;
                    &&& r matches ReadOutcome::Filled(b) && bytes_of(b) == bytes_of(c).take(k)
                    &&& final(self).active_bytes() == bytes_of(c).skip(k)
                    &&& final(self).spec_stream() == old(self).spec_stream()
                },
                StreamPoll::End => {
                    &&& r matches ReadOutcome::Filled(b) && bytes_of(b).len() == 0
                    &&& !final(self).has_stream()
                    &&& final(self).active_bytes() == old(self).active_bytes()
                },
                StreamPoll::Pending => {
                    &&& r is Pending
                    &&& final(self).spec_stream() == old(self).spec_stream()
                    &&& final(self).active_bytes() == old(self).active_bytes()
                },
                StreamPoll::Failed(e) => {
                    &&& r == ReadOutcome::Failed(e)
                    &&& !final(self).has_stream()
                    &&& final(self).active_bytes() == old(self).active_bytes()
                },
            },
    {
        match ev {
            StreamPoll::Ready(c) => {
                self.active = c;
                ReadOutcome::Filled(self.fill_from_active(room))
            },
            StreamPoll::End => {
                self.stream = None;
                ReadOutcome::Filled(empty_bytes())
            },
            StreamPoll::Pending => ReadOutcome::Pending,
            StreamPoll::Failed(e) => {
                self.stream = None;
                ReadOutcome::Failed(e)
            },
        }
    }
}

} // verus!

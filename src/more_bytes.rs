//! A FIFO queue of non-empty chunks that reads like a buffered reader.

use vstd::prelude::*;

use std::collections::VecDeque;

use bytes::Bytes;

use crate::chunk::{bytes_len, bytes_of, bytes_slice, split_front};
use crate::stream::{StreamError, StreamPoll};

verus! {

/// The number of bytes that one read with a buffer of `n` bytes takes
/// from the queue `chunks`: as many as fit, from the front chunk alone.
pub open spec fn read_count(chunks: Seq<Seq<u8>>, n: nat) -> nat {
    if chunks.len() == 0 {
        0
    } else if n < chunks[0].len() {
        n
    } else {
        chunks[0].len()
    }
}

/// The bytes that one read with a buffer of `n` bytes hands out.
pub open spec fn read_out(chunks: Seq<Seq<u8>>, n: nat) -> Seq<u8> {
    if chunks.len() == 0 {
        Seq::empty()
    } else {
        chunks[0].take(read_count(chunks, n) as int)
    }
}

/// The queue that is left after one read with a buffer of `n` bytes: the
/// front chunk is shortened, and popped once it is used up.
pub open spec fn read_rest(chunks: Seq<Seq<u8>>, n: nat) -> Seq<Seq<u8>> {
    if chunks.len() == 0 {
        chunks
    } else if read_count(chunks, n) == chunks[0].len() {
        chunks.drop_first()
    } else {
        chunks.update(0, chunks[0].skip(read_count(chunks, n) as int))
    }
}

/// What a run of reads with the buffer sizes `sizes` hands out, joined.
pub open spec fn reads_joined(chunks: Seq<Seq<u8>>, sizes: Seq<nat>) -> Seq<u8>
    decreases sizes.len(),
{
    if sizes.len() == 0 {
        Seq::empty()
    } else {
        read_out(chunks, sizes[0]) + reads_joined(read_rest(chunks, sizes[0]), sizes.drop_first())
    }
}

/// The queue that is left after a run of reads with the buffer sizes `sizes`.
pub open spec fn reads_rest(chunks: Seq<Seq<u8>>, sizes: Seq<nat>) -> Seq<Seq<u8>>
    decreases sizes.len(),
{
    if sizes.len() == 0 {
        chunks
    } else {
        reads_rest(read_rest(chunks, sizes[0]), sizes.drop_first())
    }
}

/// Every chunk of the queue holds at least one byte.
pub open spec fn all_non_empty(chunks: Seq<Seq<u8>>) -> bool {
    forall|i: int| 0 <= i < chunks.len() ==> #[trigger] chunks[i].len() > 0
}

proof fn lemma_read_step(chunks: Seq<Seq<u8>>, n: nat)
    requires
        all_non_empty(chunks),
        n > 0,
    ensures
        all_non_empty(read_rest(chunks, n)),
        read_out(chunks, n) + read_rest(chunks, n).flatten() == chunks.flatten(),
        read_out(chunks, n).len() == read_count(chunks, n),
        chunks.len() > 0 ==> read_count(chunks, n) > 0,
{
    if chunks.len() > 0 {
        let c = read_count(chunks, n) as int;
        let rest = read_rest(chunks, n);
        assert(chunks.flatten() == chunks[0] + chunks.drop_first().flatten());
        if c == chunks[0].len() {
            assert(chunks[0].take(c) =~= chunks[0]);
        } else {
            assert(rest.drop_first() =~= chunks.drop_first());
            assert(rest.flatten() == rest[0] + rest.drop_first().flatten());
            assert(chunks[0] =~= chunks[0].take(c) + chunks[0].skip(c));
            assert forall|i: int| 0 <= i < rest.len() implies #[trigger] rest[i].len() > 0 by {
                if 0 < i < rest.len() {
                    assert(rest[i] == chunks[i]);
                }
            }
        }
    } else {
        assert(chunks.flatten() =~= Seq::<u8>::empty());
    }
}

/// Reading a queue with buffers of at least one byte, as many times as it
/// holds bytes, hands out exactly its bytes in order and empties it, so
/// that every read after that hands out nothing.
pub proof fn lemma_reads_reassemble(chunks: Seq<Seq<u8>>, sizes: Seq<nat>)
    requires
        all_non_empty(chunks),
        forall|i: int| 0 <= i < sizes.len() ==> #[trigger] sizes[i] >= 1,
        sizes.len() >= chunks.flatten().len(),
    ensures
        reads_joined(chunks, sizes) == chunks.flatten(),
        reads_rest(chunks, sizes).len() == 0,
        forall|n: nat| read_out(#[trigger] reads_rest(chunks, sizes), n).len() == 0,
    decreases sizes.len(),
{
    lemma_reads_progress(chunks, sizes);
    let rest = reads_rest(chunks, sizes);
    if rest.len() > 0 {
        assert(rest.flatten() == rest[0] + rest.drop_first().flatten());
    }
    assert(reads_joined(chunks, sizes) + rest.flatten() == chunks.flatten());
    assert(rest.len() == 0);
    assert(rest.flatten() =~= Seq::<u8>::empty());
    assert(reads_joined(chunks, sizes) + rest.flatten() =~= reads_joined(chunks, sizes));
}

proof fn lemma_reads_progress(chunks: Seq<Seq<u8>>, sizes: Seq<nat>)
    requires
        all_non_empty(chunks),
        forall|i: int| 0 <= i < sizes.len() ==> #[trigger] sizes[i] >= 1,
    ensures
        all_non_empty(reads_rest(chunks, sizes)),
        reads_joined(chunks, sizes) + reads_rest(chunks, sizes).flatten() == chunks.flatten(),
        reads_rest(chunks, sizes).len() > 0 ==> reads_rest(chunks, sizes).flatten().len()
            + sizes.len() <= chunks.flatten().len(),
    decreases sizes.len(),
{
    if sizes.len() == 0 {
        assert(Seq::<u8>::empty() + chunks.flatten() =~= chunks.flatten());
    } else {
        let n = sizes[0];
        let next = read_rest(chunks, n);
        let tail = sizes.drop_first();
        lemma_read_step(chunks, n);
        assert forall|i: int| 0 <= i < tail.len() implies #[trigger] tail[i] >= 1 by {
            assert(tail[i] == sizes[i + 1]);
        }
        lemma_reads_progress(next, tail);
        let out = read_out(chunks, n);
        let later = reads_joined(next, tail);
        let last = reads_rest(next, tail).flatten();
        assert(out + later + last =~= out + (later + last));
        if reads_rest(chunks, sizes).len() > 0 {
            if chunks.len() == 0 {
                assert(next.len() == 0);
                assert(reads_rest(next, tail) == next) by {
                    lemma_reads_of_empty(next, tail);
                }
            }
        }
    }
}

proof fn lemma_reads_of_empty(chunks: Seq<Seq<u8>>, sizes: Seq<nat>)
    requires
        chunks.len() == 0,
    ensures
        reads_rest(chunks, sizes) == chunks,
    decreases sizes.len(),
{
    if sizes.len() > 0 {
        lemma_reads_of_empty(read_rest(chunks, sizes[0]), sizes.drop_first());
    }
}

/// An ordered queue of chunks; it never holds an empty chunk.
pub struct MoreBytes {
    queue: VecDeque<Bytes>,
}

impl MoreBytes {
    /// The chunks, front first.
    pub closed spec fn chunks(&self) -> Seq<Seq<u8>> {
        self.queue@.map_values(|b: Bytes| bytes_of(b))
    }

    /// All bytes of the queue, in order.
    pub open spec fn content(&self) -> Seq<u8> {
        self.chunks().flatten()
    }

    /// No chunk of the queue is empty.
    #[verifier::type_invariant]
    pub open spec fn no_empty_chunk(&self) -> bool {
        all_non_empty(self.chunks())
    }

    /// Moves the chunks out, leaving the queue empty.
    fn take_queue(&mut self) -> (r: VecDeque<Bytes>)
        ensures
            r@ == old(self).queue@,
            final(self).queue@.len() == 0,
    {
        let mut q = VecDeque::new();
        std::mem::swap(&mut self.queue, &mut q);
        q
    }

    /// An empty queue.
    pub fn empty() -> (r: Self)
        ensures
            r.chunks() == Seq::<Seq<u8>>::empty(),
    {
        let r = MoreBytes { queue: VecDeque::new() };
        assert(r.chunks() =~= Seq::<Seq<u8>>::empty());
        r
    }

    /// Appends a chunk at the back; an empty chunk is dropped.
    pub fn push(&mut self, bytes: Bytes)
        ensures
            bytes_of(bytes).len() == 0 ==> final(self).chunks() == old(self).chunks(),
            bytes_of(bytes).len() > 0 ==> final(self).chunks() == old(self).chunks().push(
                bytes_of(bytes),
            ),
            final(self).content() == old(self).content() + bytes_of(bytes),
            all_non_empty(final(self).chunks()),
    {
        proof {
            use_type_invariant(&*self);
        }
        let ghost old_chunks = self.chunks();
        if bytes_len(&bytes) != 0 {
            let ghost b = bytes;
            let mut q = self.take_queue();
            q.push_back(bytes);
            assert(q@.map_values(|b: Bytes| bytes_of(b)) =~= old_chunks.push(bytes_of(b)));
            self.queue = q;
            assert(self.chunks() =~= old_chunks.push(bytes_of(b)));
            proof {
                old_chunks.lemma_flatten_push(bytes_of(b));
            }
        } else {
            assert(old_chunks.flatten() + bytes_of(bytes) =~= old_chunks.flatten());
        }
    }

    /// Whether no bytes are left.
    pub fn is_empty(&self) -> (r: bool)
        ensures
            r == (self.content().len() == 0),
            r == (self.chunks().len() == 0),
    {
        proof {
            use_type_invariant(self);
            if self.chunks().len() > 0 {
                let c = self.chunks();
                assert(c.flatten() == c[0] + c.drop_first().flatten());
                assert(c[0].len() > 0);
            } else {
                assert(self.chunks().flatten() =~= Seq::<u8>::empty());
            }
        }
        self.queue.len() == 0
    }

    /// The number of bytes left (not of chunks), counted without copying;
    /// a total beyond `usize::MAX` is reported as `usize::MAX`.
    pub fn len(&self) -> (r: usize)
        ensures
            r == if self.content().len() <= usize::MAX {
                self.content().len()
            } else {
                usize::MAX as nat
            },
    {
        let ghost chunks = self.chunks();
        let mut total: usize = 0;
        let mut i: usize = 0;
        while i < self.queue.len()
            invariant
                chunks == self.chunks(),
                i <= self.queue@.len(),
                chunks.len() == self.queue@.len(),
                total == if chunks.take(i as int).flatten().len() <= usize::MAX {
                    chunks.take(i as int).flatten().len()
                } else {
                    usize::MAX as nat
                },
            decreases self.queue@.len() - i,
        {
            let n = bytes_len(&self.queue[i]);
            proof {
                assert(chunks.take(i as int).push(chunks[i as int]) =~= chunks.take(i + 1));
                chunks.take(i as int).lemma_flatten_push(chunks[i as int]);
            }
            total = total.saturating_add(n);
            i = i + 1;
        }
        assert(chunks.take(i as int) =~= chunks);
        total
    }

    /// Removes and returns the front chunk.
    pub fn next_bytes(&mut self) -> (r: Option<Bytes>)
        ensures
            old(self).chunks().len() == 0 ==> r is None && final(self).chunks() == old(
                self,
            ).chunks(),
            old(self).chunks().len() > 0 ==> (r matches Some(b) && bytes_of(b) == old(
                self,
            ).chunks()[0] && final(self).chunks() == old(self).chunks().drop_first()),
    {
        proof {
            use_type_invariant(&*self);
        }
        let ghost before = self.chunks();
        let mut q = self.take_queue();
        let r = q.pop_front();
        assert(q@.map_values(|b: Bytes| bytes_of(b)) =~= if before.len() == 0 {
            before
        } else {
            before.drop_first()
        });
        self.queue = q;
        assert(self.chunks() =~= if before.len() == 0 { before } else { before.drop_first() });
        r
    }

    /// The number of chunks in the queue.
    pub fn chunk_count(&self) -> (r: usize)
        ensures
            r == self.chunks().len(),
    {
        self.queue.len()
    }

    /// The chunk at position `i`, front first.
    pub fn chunk_at(&self, i: usize) -> (r: &Bytes)
        requires
            i < self.chunks().len(),
        ensures
            bytes_of(*r) == self.chunks()[i as int],
    {
        &self.queue[i]
    }

    /// Joins all chunks into one vector; this copies every byte.
    pub fn to_vec(&self) -> (r: Vec<u8>)
        ensures
            r@ == self.content(),
    {
        let ghost chunks = self.chunks();
        let mut out: Vec<u8> = Vec::new();
        let mut i: usize = 0;
        while i < self.queue.len()
            invariant
                chunks == self.chunks(),
                i <= self.queue@.len(),
                chunks.len() == self.queue@.len(),
                out@ == chunks.take(i as int).flatten(),
            decreases self.queue@.len() - i,
        {
            let s = bytes_slice(&self.queue[i]);
            out.extend_from_slice(s);
            proof {
                assert(chunks.take(i as int).push(chunks[i as int]) =~= chunks.take(i + 1));
                chunks.take(i as int).lemma_flatten_push(chunks[i as int]);
            }
            i = i + 1;
        }
        assert(chunks.take(i as int) =~= chunks);
        out
    }

    /// Copies bytes from the front chunk into `buf`, as many as fit, and
    /// drops them from the queue. Returns how many were copied: zero only
    /// when the queue is empty or `buf` has no room. Never fails.
    pub fn read(&mut self, buf: &mut [u8]) -> (r: usize)
        ensures
            r == read_count(old(self).chunks(), old(buf)@.len()),
            final(self).chunks() == read_rest(old(self).chunks(), old(buf)@.len()),
            final(buf)@.len() == old(buf)@.len(),
            final(buf)@.take(r as int) == read_out(old(self).chunks(), old(buf)@.len()),
            final(buf)@.skip(r as int) == old(buf)@.skip(r as int),
            final(self).content() == old(self).content().skip(r as int),
            old(self).content().take(r as int) == read_out(old(self).chunks(), old(buf)@.len()),
            all_non_empty(old(self).chunks()),
    {
        proof {
            use_type_invariant(&*self);
        }
        let ghost chunks = self.chunks();
        let ghost n = buf@.len();
        if self.queue.len() == 0 {
            assert(buf@.take(0) =~= Seq::<u8>::empty());
            assert(buf@.skip(0) =~= buf@);
            assert(chunks.flatten().skip(0) =~= chunks.flatten());
            assert(chunks.flatten().take(0) =~= Seq::<u8>::empty());
            return 0;
        }
        if buf.len() == 0 {
            assert(chunks[0].skip(0) =~= chunks[0]);
            assert(chunks.update(0, chunks[0].skip(0)) =~= chunks);
            assert(buf@.take(0) =~= Seq::<u8>::empty());
            assert(buf@.skip(0) =~= buf@);
            assert(chunks.flatten().skip(0) =~= chunks.flatten());
            assert(chunks.flatten().take(0) =~= Seq::<u8>::empty());
            return 0;
        }
        let front = bytes_slice(&self.queue[0]);
        let len = if buf.len() < front.len() {
            buf.len()
        } else {
            front.len()
        };
        let mut i: usize = 0;
        while i < len
            invariant
                i <= len,
                len <= buf@.len(),
                len <= front@.len(),
                buf@.len() == n,
                chunks.len() > 0,
                front@ == chunks[0],
                forall|k: int| 0 <= k < i ==> buf@[k] == front@[k],
                old(buf)@.len() == n,
                forall|k: int| i <= k < n ==> buf@[k] == old(buf)@[k],
            decreases len - i,
        {
            buf[i] = front[i];
            i = i + 1;
        }
        assert(buf@.take(len as int) =~= chunks[0].take(len as int));
        assert(buf@.skip(len as int) =~= old(buf)@.skip(len as int));
        let full = len == bytes_len(&self.queue[0]);
        let mut q = self.take_queue();
        let mut head = q.pop_front().unwrap();
        if !full {
            let _ = split_front(&mut head, len);
            q.push_front(head);
        }
        proof {
            lemma_read_step(chunks, n);
            if full {
                assert(q@.map_values(|b: Bytes| bytes_of(b)) =~= chunks.drop_first());
            } else {
                assert(q@.map_values(|b: Bytes| bytes_of(b)) =~= chunks.update(
                    0,
                    chunks[0].skip(len as int),
                ));
            }
        }
        self.queue = q;
        if full {
            assert(self.chunks() =~= chunks.drop_first());
        } else {
            assert(self.chunks() =~= chunks.update(0, chunks[0].skip(len as int)));
        }
        proof {
            let out = read_out(chunks, n);
            let rest = read_rest(chunks, n);
            assert(chunks.flatten() == out + rest.flatten());
            assert(chunks.flatten().take(len as int) =~= out);
            assert(chunks.flatten().skip(len as int) =~= rest.flatten());
        }
        len
    }

    /// Takes in what one poll of a stream that fills the queue reported: a
    /// chunk is appended and the filling goes on (none); the end of the
    /// stream finishes it (`Ok`); an error stops it and is handed on.
    pub fn fill_step(&mut self, p: StreamPoll) -> (r: Option<Result<(), StreamError>>)
        ensures
            match p {
                StreamPoll::Ready(b) => {
                    &&& r is None
                    &&& final(self).content() == old(self).content() + bytes_of(b)
                    &&& bytes_of(b).len() == 0 ==> final(self).chunks() == old(self).chunks()
                    &&& bytes_of(b).len() > 0 ==> final(self).chunks() == old(self).chunks().push(
                        bytes_of(b),
                    )
                },
                StreamPoll::Pending => r is None && final(self).chunks() == old(self).chunks(),
                StreamPoll::End => r == Some(Ok::<(), StreamError>(())) && final(self).chunks()
                    == old(self).chunks(),
                StreamPoll::Failed(e) => r == Some(Err::<(), StreamError>(e))
                    && final(self).chunks() == old(self).chunks(),
            },
    {
        match p {
            StreamPoll::Ready(b) => {
                self.push(b);
                None
            },
            StreamPoll::Pending => None,
            StreamPoll::End => Some(Ok(())),
            StreamPoll::Failed(e) => Some(Err(e)),
        }
    }

    /// Polls the queue as a chunk stream: the front chunk, or the end of
    /// the stream once the queue is empty. Never pending, never failing.
    pub fn poll_bytes(&mut self) -> (r: StreamPoll)
        ensures
            old(self).chunks().len() == 0 ==> r is End && final(self).chunks() == old(
                self,
            ).chunks(),
            old(self).chunks().len() > 0 ==> (r matches StreamPoll::Ready(b) && bytes_of(b)
                == old(self).chunks()[0] && final(self).chunks() == old(self).chunks().drop_first()),
            r.chunk_non_empty(),
    {
        proof {
            use_type_invariant(&*self);
        }
        match self.next_bytes() {
            Some(b) => StreamPoll::Ready(b),
            None => StreamPoll::End,
        }
    }
}

} // verus!

//! The chunk type: an immutable, reference-counted byte run from the
//! `bytes` crate, seen by the proofs as the sequence of bytes it holds.

use vstd::prelude::*;

use bytes::Bytes;

verus! {

#[verifier::external_type_specification]
#[verifier::external_body]
pub struct ExBytes(Bytes);

/// The bytes that a `Bytes` value holds, in order.
pub uninterp spec fn bytes_of(b: Bytes) -> Seq<u8>;

/// Relies on `Bytes::new`: a buffer that holds no bytes.
#[verifier::external_body]
pub(crate) fn empty_bytes() -> (r: Bytes)
    ensures
        bytes_of(r) == Seq::<u8>::empty(),
{
    Bytes::new()
}

/// Relies on `Bytes::len`: the number of bytes held.
#[verifier::external_body]
pub(crate) fn bytes_len(b: &Bytes) -> (r: usize)
    ensures
        r == bytes_of(*b).len(),
{
    b.len()
}

/// Relies on `Bytes::split_to`: the first `at` bytes are handed out and
/// the rest stay behind, without copying.
#[verifier::external_body]
pub(crate) fn split_front(b: &mut Bytes, at: usize) -> (r: Bytes)
    requires
        at <= bytes_of(*old(b)).len(),
    ensures
        bytes_of(r) == bytes_of(*old(b)).take(at as int),
        bytes_of(*final(b)) == bytes_of(*old(b)).skip(at as int),
{
    b.split_to(at)
}

/// Relies on `Bytes`'s `Deref` to `[u8]`: a view of the bytes held.
#[verifier::external_body]
pub(crate) fn bytes_slice(b: &Bytes) -> (r: &[u8])
    ensures
        r@ == bytes_of(*b),
{
    b
}

/// Relies on `Bytes`'s `From<Vec<u8>>`: takes over the vector's bytes.
#[verifier::external_body]
pub(crate) fn bytes_from_vec(v: Vec<u8>) -> (r: Bytes)
    ensures
        bytes_of(r) == v@,
{
    Bytes::from(v)
}

/// Relies on `Bytes::from_static`: refers to the static bytes, without
/// copying.
#[verifier::external_body]
pub(crate) fn bytes_from_static(s: &'static [u8]) -> (r: Bytes)
    ensures
        bytes_of(r) == s@,
{
    Bytes::from_static(s)
}

/// Relies on `Bytes::copy_from_slice`: a new buffer with a copy of the bytes.
#[verifier::external_body]
pub(crate) fn bytes_copy_from_slice(s: &[u8]) -> (r: Bytes)
    ensures
        bytes_of(r) == s@,
{
    Bytes::copy_from_slice(s)
}

} // verus!

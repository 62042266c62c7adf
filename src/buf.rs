//! The scratch buffers that carry file contents between the poll side and the
//! worker side, held as `bytes` buffers.
use vstd::prelude::*;

verus! {

#[verifier::external_type_specification]
#[verifier::external_body]
pub struct ExBytesMut(bytes::BytesMut);

#[verifier::external_type_specification]
#[verifier::external_body]
pub struct ExBytes(bytes::Bytes);

/// The bytes that a growable buffer currently holds (not its spare capacity).
pub uninterp spec fn buffer_bytes(b: bytes::BytesMut) -> Seq<u8>;

/// How many bytes a growable buffer can hold without reallocating.
pub uninterp spec fn buffer_cap(b: bytes::BytesMut) -> nat;

/// The bytes that a frozen chunk holds.
pub uninterp spec fn chunk_bytes(b: bytes::Bytes) -> Seq<u8>;

/// Relies on `BytesMut::new`: a buffer that holds no bytes.
#[verifier::external_body]
pub(crate) fn empty_buffer() -> (r: bytes::BytesMut)
    ensures
        buffer_bytes(r) == Seq::<u8>::empty(),
{
    bytes::BytesMut::new()
}

/// Relies on `BytesMut::len`: the number of bytes held.
#[verifier::external_body]
pub(crate) fn buffer_len(b: &bytes::BytesMut) -> (r: usize)
    ensures
        r == buffer_bytes(*b).len(),
{
    b.len()
}

/// Relies on `BytesMut::capacity`: how many bytes the buffer can hold without
/// reallocating, which is never below what it holds.
#[verifier::external_body]
pub(crate) fn buffer_capacity(b: &bytes::BytesMut) -> (r: usize)
    ensures
        r == buffer_cap(*b),
        r >= buffer_bytes(*b).len(),
{
    b.capacity()
}

/// Relies on `BytesMut::reserve`: keeps the bytes held and leaves room for at
/// least `additional` more. It panics when the new capacity would overflow, which `requires`
/// leaves out.
#[verifier::external_body]
pub(crate) fn reserve(b: &mut bytes::BytesMut, additional: usize)
    requires
        buffer_bytes(*old(b)).len() + additional <= isize::MAX,
    ensures
        buffer_bytes(*final(b)) == buffer_bytes(*old(b)),
        buffer_cap(*final(b)) >= buffer_bytes(*old(b)).len() + additional,
{
    b.reserve(additional)
}

/// Relies on `BytesMut::split_off`: the buffer keeps `[0, at)`, the result
/// holds `[at, len)`. It panics only past the capacity, which `requires` leaves out.
#[verifier::external_body]
pub(crate) fn split_off(b: &mut bytes::BytesMut, at: usize) -> (r: bytes::BytesMut)
    requires
        at <= buffer_bytes(*old(b)).len(),
    ensures
        buffer_bytes(*final(b)) == buffer_bytes(*old(b)).subrange(0, at as int),
        buffer_bytes(r) == buffer_bytes(*old(b)).subrange(at as int, buffer_bytes(*old(b)).len() as int),
{
    b.split_off(at)
}

/// Relies on `BytesMut::take`: moves out every byte held, leaving the buffer
/// empty with its spare capacity.
#[verifier::external_body]
pub(crate) fn take(b: &mut bytes::BytesMut) -> (r: bytes::BytesMut)
    ensures
        buffer_bytes(r) == buffer_bytes(*old(b)),
        buffer_bytes(*final(b)) == Seq::<u8>::empty(),
{
    b.take()
}

/// Relies on `BytesMut::freeze`: the same bytes, now immutable.
#[verifier::external_body]
pub(crate) fn freeze(b: bytes::BytesMut) -> (r: bytes::Bytes)
    ensures
        chunk_bytes(r) == buffer_bytes(b),
{
    b.freeze()
}

} // verus!

//! The byte buffers of a connection: `bytes::BytesMut`, with what the
//! dispatcher relies on stated for each operation it uses.

use bytes::{Buf, BytesMut};
use vstd::prelude::*;

verus! {

#[verifier::external_type_specification]
#[verifier::external_body]
pub struct ExBytesMut(BytesMut);

/// The bytes that a buffer holds, first to last.
pub uninterp spec fn buffer_bytes(buf: BytesMut) -> Seq<u8>;

/// `BytesMut::with_capacity`: the new buffer holds no bytes. It panics when
/// the capacity is more than can be allocated, which the precondition
/// excludes.
#[verifier::external_body]
pub(crate) fn with_capacity(capacity: usize) -> (buf: BytesMut)
    requires
        capacity <= isize::MAX,
    ensures
        buffer_bytes(buf) == Seq::<u8>::empty(),
{
    BytesMut::with_capacity(capacity)
}

/// `BytesMut::len`: the number of bytes held.
#[verifier::external_body]
pub(crate) fn len(buf: &BytesMut) -> (n: usize)
    ensures
        n == buffer_bytes(*buf).len(),
{
    buf.len()
}

/// `BytesMut::capacity`: how many bytes fit without reallocation. Nothing is
/// claimed of it.
#[verifier::external_body]
pub(crate) fn capacity(buf: &BytesMut) -> usize {
    buf.capacity()
}

/// `BytesMut::reserve`: makes room and leaves the bytes as they are. It
/// panics when the new capacity overflows, which the precondition excludes.
#[verifier::external_body]
pub(crate) fn reserve(buf: &mut BytesMut, additional: usize)
    requires
        buffer_bytes(*old(buf)).len() + additional <= isize::MAX,
    ensures
        buffer_bytes(*final(buf)) == buffer_bytes(*old(buf)),
{
    buf.reserve(additional)
}

/// `BytesMut::extend_from_slice`: appends `data`.
#[verifier::external_body]
pub(crate) fn extend_from_slice(buf: &mut BytesMut, data: &[u8])
    requires
        buffer_bytes(*old(buf)).len() + data@.len() <= isize::MAX,
    ensures
        buffer_bytes(*final(buf)) == buffer_bytes(*old(buf)) + data@,
{
    buf.extend_from_slice(data)
}

/// `Buf::advance` on a `BytesMut`: drops the first `count` bytes. It panics
/// when fewer are held, which the precondition excludes.
#[verifier::external_body]
pub(crate) fn advance(buf: &mut BytesMut, count: usize)
    requires
        count <= buffer_bytes(*old(buf)).len(),
    ensures
        buffer_bytes(*final(buf)) == buffer_bytes(*old(buf)).skip(count as int),
{
    buf.advance(count)
}

/// `BytesMut::clear`: drops every byte.
#[verifier::external_body]
pub(crate) fn clear(buf: &mut BytesMut)
    ensures
        buffer_bytes(*final(buf)) == Seq::<u8>::empty(),
{
    buf.clear()
}

} // verus!

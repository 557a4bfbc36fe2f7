//! The byte buffers of the connection, `bytes::BytesMut`, and what the
//! library does with them.

use vstd::prelude::*;
use bytes::{BufMut, BytesMut};

verus! {

#[verifier::external_type_specification]
#[verifier::external_body]
pub struct ExBytesMut(BytesMut);

/// The bytes a `BytesMut` holds, first to last.
pub uninterp spec fn buf_contents(b: BytesMut) -> Seq<u8>;

/// Calls `BytesMut::new`: an empty buffer.
#[verifier::external_body]
pub(crate) fn buf_new() -> (r: BytesMut)
    ensures
        buf_contents(r) == Seq::<u8>::empty(),
{
    BytesMut::new()
}

/// Calls `BytesMut::len`: the number of bytes held.
#[verifier::external_body]
pub(crate) fn buf_len(b: &BytesMut) -> (r: usize)
    ensures
        r as int == buf_contents(*b).len(),
{
    b.len()
}

/// Calls `<BytesMut as Extend<&u8>>::extend` with a slice: the slice's bytes
/// are appended. The call reserves room itself; it does not say here that an
/// allocation whose capacity would overflow `usize` panics.
#[verifier::external_body]
pub(crate) fn buf_extend(b: &mut BytesMut, data: &[u8])
    ensures
        buf_contents(*final(b)) == buf_contents(*old(b)) + data@,
{
    b.extend(data)
}

/// Calls `BytesMut::reserve`: the bytes held stay as they were; only the room
/// behind them grows.
#[verifier::external_body]
pub(crate) fn buf_reserve(b: &mut BytesMut, additional: usize)
    ensures
        buf_contents(*final(b)) == buf_contents(*old(b)),
{
    b.reserve(additional)
}

/// Calls `<BytesMut as BufMut>::remaining_mut`: the room left before the next
/// allocation. It depends on what the allocator gave, so nothing is said of it.
#[verifier::external_body]
pub(crate) fn buf_remaining_mut(b: &BytesMut) -> usize {
    b.remaining_mut()
}

/// Calls `BytesMut::split_to`: the first `at` bytes leave the buffer and are
/// returned. It panics when `at` exceeds the length.
#[verifier::external_body]
pub(crate) fn buf_split_to(b: &mut BytesMut, at: usize) -> (r: BytesMut)
    requires
        at <= buf_contents(*old(b)).len(),
    ensures
        buf_contents(r) == buf_contents(*old(b)).take(at as int),
        buf_contents(*final(b)) == buf_contents(*old(b)).skip(at as int),
{
    b.split_to(at)
}

/// Calls `<BytesMut as AsRef<[u8]>>::as_ref`: the bytes held, as a slice.
#[verifier::external_body]
pub(crate) fn buf_as_slice(b: &BytesMut) -> (r: &[u8])
    ensures
        r@ == buf_contents(*b),
{
    b.as_ref()
}

/// `<BytesMut as Clone>::clone` copies the bytes held into a new buffer
/// (`BytesMut::from(&self[..])`): the copy holds the same bytes.
pub assume_specification[<BytesMut as Clone>::clone](b: &BytesMut) -> (r: BytesMut)
    ensures
        buf_contents(r) == buf_contents(*b),
;

/// Calls `BytesMut::clear`: nothing is held afterwards.
#[verifier::external_body]
pub(crate) fn buf_clear(b: &mut BytesMut)
    ensures
        buf_contents(*final(b)) == Seq::<u8>::empty(),
{
    b.clear()
}

} // verus!

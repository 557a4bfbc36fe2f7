//! Big-endian integers and UTF-8 text as they appear on the wire.

use vstd::prelude::*;
use vstd::utf8::*;
use byteorder::{BigEndian, ByteOrder};

verus! {

/// The unsigned value of the first two bytes of `b`, most significant first.
pub open spec fn be_u16(b: Seq<u8>) -> int {
    b[0] as int * 0x100 + b[1] as int
}

/// The unsigned value of the first four bytes of `b`, most significant first.
pub open spec fn be_u32(b: Seq<u8>) -> int {
    b[0] as int * 0x1000000 + b[1] as int * 0x10000 + b[2] as int * 0x100 + b[3] as int
}

/// The unsigned value of the first eight bytes of `b`, most significant first.
pub open spec fn be_u64(b: Seq<u8>) -> int {
    be_u32(b) * 0x100000000 + be_u32(b.subrange(4, 8))
}

/// Two's complement reading of a 32-bit unsigned value.
pub open spec fn signed32(u: int) -> int {
    if u < 0x80000000 { u } else { u - 0x100000000 }
}

/// Two's complement reading of a 64-bit unsigned value.
pub open spec fn signed64(u: int) -> int {
    if u < 0x8000000000000000 { u } else { u - 0x10000000000000000 }
}

/// The four bytes of `n`, most significant first.
pub open spec fn be_bytes_u32(n: u32) -> Seq<u8> {
    seq![(n >> 24u32) as u8, ((n >> 16u32) & 0xff) as u8, ((n >> 8u32) & 0xff) as u8, (n & 0xff) as u8]
}

/// The two bytes of `n`, most significant first.
pub open spec fn be_bytes_u16(n: u16) -> Seq<u8> {
    seq![(n >> 8u16) as u8, (n & 0xff) as u8]
}

/// The eight bytes of `n`, most significant first.
pub open spec fn be_bytes_u64(n: u64) -> Seq<u8> {
    be_bytes_u32((n >> 32u64) as u32) + be_bytes_u32((n & 0xffff_ffff) as u32)
}

/// Calls `byteorder::BigEndian::read_u16`: the first two bytes of `buf` as a
/// big-endian unsigned integer. It panics on fewer than two bytes.
#[verifier::external_body]
pub(crate) fn read_u16(buf: &[u8]) -> (r: u16)
    requires
        buf@.len() >= 2,
    ensures
        r as int == be_u16(buf@),
{
    BigEndian::read_u16(buf)
}

/// Calls `byteorder::BigEndian::read_i32`: the first four bytes of `buf` as a
/// big-endian two's complement integer. It panics on fewer than four bytes.
#[verifier::external_body]
pub(crate) fn read_i32(buf: &[u8]) -> (r: i32)
    requires
        buf@.len() >= 4,
    ensures
        r as int == signed32(be_u32(buf@)),
{
    BigEndian::read_i32(buf)
}

/// Calls `byteorder::BigEndian::read_i64`: the first eight bytes of `buf` as a
/// big-endian two's complement integer. It panics on fewer than eight bytes.
#[verifier::external_body]
pub(crate) fn read_i64(buf: &[u8]) -> (r: i64)
    requires
        buf@.len() >= 8,
    ensures
        r as int == signed64(be_u64(buf@)),
{
    BigEndian::read_i64(buf)
}

/// Calls `byteorder::BigEndian::write_u32` on a four-byte array: the bytes of
/// `n`, most significant first.
#[verifier::external_body]
pub(crate) fn write_u32(n: u32) -> (r: [u8; 4])
    ensures
        r@ == be_bytes_u32(n),
{
    let mut out = [0u8; 4];
    BigEndian::write_u32(&mut out, n);
    out
}

/// Calls `std::str::from_utf8`: the text that `bytes` encode, when they are
/// valid UTF-8, and nothing otherwise.
#[verifier::external_body]
pub(crate) fn utf8_text(bytes: &[u8]) -> (r: Option<&str>)
    ensures
        r is Some <==> valid_utf8(bytes@),
        r matches Some(s) ==> s@ == decode_utf8(bytes@),
{
    std::str::from_utf8(bytes).ok()
}

/// Calls `<[u8]>::len`: the number of bytes in the slice. No slice spans
/// more than `isize::MAX` bytes, as the std documentation of slices states.
#[verifier::external_body]
pub(crate) fn byte_len(b: &[u8]) -> (r: usize)
    ensures
        r as int == b@.len(),
        r <= isize::MAX,
{
    b.len()
}

/// The bytes of `n` read back give `n`.
pub proof fn lemma_be_u32_roundtrip(n: u32)
    ensures
        be_u32(be_bytes_u32(n)) == n as int,
{
    assert(((n >> 24u32) as u8) as u32 * 0x1000000 + (((n >> 16u32) & 0xff) as u8) as u32 * 0x10000
        + (((n >> 8u32) & 0xff) as u8) as u32 * 0x100 + ((n & 0xff) as u8) as u32 == n) by (bit_vector);
}

/// The two bytes of `n` read back give `n`.
pub proof fn lemma_be_u16_roundtrip(n: u16)
    ensures
        be_u16(be_bytes_u16(n)) == n as int,
{
    assert(((n >> 8u16) as u8) as u16 * 0x100 + ((n & 0xff) as u8) as u16 == n) by (bit_vector);
}

/// The eight bytes of `n` read back give `n`, and read as signed they give
/// the signed number with the same bits.
pub proof fn lemma_be_u64_roundtrip(n: u64)
    ensures
        be_u64(be_bytes_u64(n)) == n as int,
        signed64(be_u64(be_bytes_u64(n))) == (n as i64) as int,
{
    let hi = (n >> 32u64) as u32;
    let lo = (n & 0xffff_ffff) as u32;
    lemma_be_u32_roundtrip(hi);
    lemma_be_u32_roundtrip(lo);
    assert(be_bytes_u64(n).subrange(4, 8) =~= be_bytes_u32(lo));
    assert(be_u32(be_bytes_u64(n)) == be_u32(be_bytes_u32(hi)));
    assert(((n >> 32u64) as u32) as u64 * 0x100000000u64 + ((n & 0xffff_ffff) as u32) as u64 == n)
        by (bit_vector);
    assert(n < 0x8000000000000000u64 ==> (n as i64) as int == n as int) by (bit_vector);
    assert(n >= 0x8000000000000000u64 ==> (n as i64) as int == n as int - 0x10000000000000000int)
        by (bit_vector);
}

} // verus!

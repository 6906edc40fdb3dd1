//! Fixed-width integer encodings used on the wire.
//!
//! Sequence ids travel as eight big-endian bytes, PCM samples as two
//! little-endian bytes, both in two's complement.

use byteorder::{BigEndian, ByteOrder, LittleEndian, WriteBytesExt};
use vstd::prelude::*;

verus! {

/// The unsigned 16-bit number with the same bit pattern as `v`.
pub open spec fn i16_bits(v: i16) -> int {
    if v < 0 {
        v + 0x1_0000
    } else {
        v as int
    }
}

/// The signed number whose bit pattern is `u`, for `0 <= u < 2^16`.
pub open spec fn i16_of_bits(u: int) -> i16 {
    if u >= 0x8000 {
        (u - 0x1_0000) as i16
    } else {
        u as i16
    }
}

/// Little-endian two's-complement bytes of `v`: low byte first.
pub open spec fn i16_le_bytes(v: i16) -> Seq<u8> {
    seq![(i16_bits(v) % 256) as u8, (i16_bits(v) / 256) as u8]
}

/// The sample spelled by a low byte and a high byte.
pub open spec fn i16_from_le(lo: u8, hi: u8) -> i16 {
    i16_of_bits(lo + 256 * hi)
}

/// The unsigned 64-bit number with the same bit pattern as `v`.
pub open spec fn i64_bits(v: i64) -> int {
    if v < 0 {
        v + 0x1_0000_0000_0000_0000
    } else {
        v as int
    }
}

/// The signed number whose bit pattern is `u`, for `0 <= u < 2^64`.
pub open spec fn i64_of_bits(u: int) -> i64 {
    if u >= 0x8000_0000_0000_0000 {
        (u - 0x1_0000_0000_0000_0000) as i64
    } else {
        u as i64
    }
}

/// Big-endian two's-complement bytes of `v`: most significant byte first.
pub open spec fn i64_be_bytes(v: i64) -> Seq<u8> {
    let u = i64_bits(v);
    seq![
        ((u / 0x100_0000_0000_0000) % 256) as u8,
        ((u / 0x1_0000_0000_0000) % 256) as u8,
        ((u / 0x100_0000_0000) % 256) as u8,
        ((u / 0x1_0000_0000) % 256) as u8,
        ((u / 0x100_0000) % 256) as u8,
        ((u / 0x1_0000) % 256) as u8,
        ((u / 0x100) % 256) as u8,
        (u % 256) as u8,
    ]
}

/// The id spelled by the first eight bytes of `b`, most significant first.
pub open spec fn i64_from_be(b: Seq<u8>) -> i64
    recommends
        b.len() >= 8,
{
    i64_of_bits(
        b[0] * 0x100_0000_0000_0000 + b[1] * 0x1_0000_0000_0000 + b[2] * 0x100_0000_0000 + b[3]
            * 0x1_0000_0000 + b[4] * 0x100_0000 + b[5] * 0x1_0000 + b[6] * 0x100 + b[7],
    )
}

/// Decoding the two bytes of a sample gives the sample back.
pub proof fn lemma_i16_le_roundtrip(v: i16)
    ensures
        i16_le_bytes(v).len() == 2,
        i16_from_le(i16_le_bytes(v)[0], i16_le_bytes(v)[1]) == v,
{
}

/// A 64-bit pattern is the sum of its base-256 digits, each at its place.
proof fn lemma_digits(u: int)
    requires
        0 <= u < 0x1_0000_0000_0000_0000,
    ensures
        u == ((u / 0x100_0000_0000_0000) % 256) * 0x100_0000_0000_0000 + ((u / 0x1_0000_0000_0000)
            % 256) * 0x1_0000_0000_0000 + ((u / 0x100_0000_0000) % 256) * 0x100_0000_0000 + ((u
            / 0x1_0000_0000) % 256) * 0x1_0000_0000 + ((u / 0x100_0000) % 256) * 0x100_0000 + ((u
            / 0x1_0000) % 256) * 0x1_0000 + ((u / 0x100) % 256) * 0x100 + u % 256,
{
    let u1 = u / 256;
    let u2 = u1 / 256;
    let u3 = u2 / 256;
    let u4 = u3 / 256;
    let u5 = u4 / 256;
    let u6 = u5 / 256;
    let u7 = u6 / 256;
    assert(u2 == u / 0x1_0000);
    assert(u3 == u / 0x100_0000);
    assert(u4 == u / 0x1_0000_0000);
    assert(u5 == u / 0x100_0000_0000);
    assert(u6 == u / 0x1_0000_0000_0000);
    assert(u7 == u / 0x100_0000_0000_0000);
    assert(u7 < 256);
}

/// Decoding the eight bytes of an id gives the id back.
pub proof fn lemma_i64_be_roundtrip(v: i64)
    ensures
        i64_be_bytes(v).len() == 8,
        i64_from_be(i64_be_bytes(v)) == v,
{
    lemma_digits(i64_bits(v));
}

/// `byteorder::LittleEndian::read_i16`: the first two bytes of `buf` read as
/// a little-endian two's-complement number. It panics on a shorter buffer,
/// which the precondition rules out.
#[verifier::external_body]
pub(crate) fn read_i16_le(buf: &[u8]) -> (v: i16)
    requires
        buf@.len() >= 2,
    ensures
        v == i16_from_le(buf@[0], buf@[1]),
{
    LittleEndian::read_i16(buf)
}

/// `byteorder::BigEndian::read_i64`: the first eight bytes of `buf` read as
/// a big-endian two's-complement number. It panics on a shorter buffer,
/// which the precondition rules out.
#[verifier::external_body]
pub(crate) fn read_i64_be(buf: &[u8]) -> (v: i64)
    requires
        buf@.len() >= 8,
    ensures
        v == i64_from_be(buf@),
{
    BigEndian::read_i64(buf)
}

/// `byteorder::WriteBytesExt::write_i16` with `LittleEndian` on a byte
/// vector: the two little-endian bytes of `v` are appended. Writing to a
/// vector cannot fail, so the result is always `Ok`.
#[verifier::external_body]
pub(crate) fn write_i16_le(out: &mut Vec<u8>, v: i16)
    ensures
        final(out)@ == old(out)@ + i16_le_bytes(v),
{
    out.write_i16::<LittleEndian>(v).unwrap()
}

/// `i64::to_be_bytes`: the big-endian two's-complement bytes of `v`.
#[verifier::external_body]
pub(crate) fn i64_to_be(v: i64) -> (bytes: [u8; 8])
    ensures
        bytes@ == i64_be_bytes(v),
{
    v.to_be_bytes()
}

} // verus!

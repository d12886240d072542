//! Little-endian, two's-complement encodings of the integers that travel in
//! a frame.
//!
//! Every multi-byte field on the wire is little-endian and every signed field
//! is two's complement. The spec functions here say so arithmetically; the
//! executable functions compute the same bytes.

use vstd::prelude::*;

verus! {

/// The byte that stands for a signed 8-bit value.
pub open spec fn i8_to_byte(x: i8) -> u8 {
    if x < 0 {
        (x + 256) as u8
    } else {
        x as u8
    }
}

/// The signed 8-bit value that a byte stands for.
pub open spec fn byte_to_i8(b: u8) -> i8 {
    if b >= 128 {
        (b - 256) as i8
    } else {
        b as i8
    }
}

/// The unsigned 16-bit value with the same bits as a signed one.
pub open spec fn i16_to_u16(x: i16) -> u16 {
    if x < 0 {
        (x + 65536) as u16
    } else {
        x as u16
    }
}

/// The signed 16-bit value with the same bits as an unsigned one.
pub open spec fn u16_to_i16(u: u16) -> i16 {
    if u >= 32768 {
        (u - 65536) as i16
    } else {
        u as i16
    }
}

/// The two bytes of an unsigned 16-bit value, low byte first.
pub open spec fn u16_to_le(x: u16) -> Seq<u8> {
    seq![(x % 256) as u8, (x / 256) as u8]
}

/// The unsigned 16-bit value with low byte `lo` and high byte `hi`.
pub open spec fn u16_from_le(lo: u8, hi: u8) -> u16 {
    (lo + 256 * hi) as u16
}

/// The two bytes of a signed 16-bit value, low byte first.
pub open spec fn i16_to_le(x: i16) -> Seq<u8> {
    u16_to_le(i16_to_u16(x))
}

/// The signed 16-bit value with low byte `lo` and high byte `hi`.
pub open spec fn i16_from_le(lo: u8, hi: u8) -> i16 {
    u16_to_i16(u16_from_le(lo, hi))
}

/// The eight bytes of an unsigned 64-bit value, low byte first.
pub open spec fn u64_to_le(x: u64) -> Seq<u8> {
    seq![
        (x % 256) as u8,
        (x / 0x100 % 256) as u8,
        (x / 0x1_0000 % 256) as u8,
        (x / 0x100_0000 % 256) as u8,
        (x / 0x1_0000_0000 % 256) as u8,
        (x / 0x100_0000_0000 % 256) as u8,
        (x / 0x1_0000_0000_0000 % 256) as u8,
        (x / 0x100_0000_0000_0000 % 256) as u8,
    ]
}

/// The unsigned 64-bit value that eight little-endian bytes stand for.
pub open spec fn u64_from_le(s: Seq<u8>) -> u64
    recommends
        s.len() == 8,
{
    (s[0] + 0x100 * s[1] + 0x1_0000 * s[2] + 0x100_0000 * s[3] + 0x1_0000_0000 * s[4]
        + 0x100_0000_0000 * s[5] + 0x1_0000_0000_0000 * s[6] + 0x100_0000_0000_0000 * s[7]) as u64
}

/// Reading back the byte of a signed 8-bit value gives the value.
pub proof fn lemma_i8_round_trip(x: i8)
    ensures
        byte_to_i8(i8_to_byte(x)) == x,
{
}

/// Reading back the bytes of an unsigned 16-bit value gives the value.
pub proof fn lemma_u16_round_trip(x: u16)
    ensures
        u16_to_le(x).len() == 2,
        u16_from_le(u16_to_le(x)[0], u16_to_le(x)[1]) == x,
{
}

/// Reading back the bytes of a signed 16-bit value gives the value.
pub proof fn lemma_i16_round_trip(x: i16)
    ensures
        i16_to_le(x).len() == 2,
        i16_from_le(i16_to_le(x)[0], i16_to_le(x)[1]) == x,
{
    lemma_u16_round_trip(i16_to_u16(x));
}

/// Reading back the bytes of an unsigned 64-bit value gives the value.
pub proof fn lemma_u64_round_trip(x: u64)
    ensures
        u64_to_le(x).len() == 8,
        u64_from_le(u64_to_le(x)) == x,
{
    assert(x == (x % 256) + 0x100 * (x / 0x100 % 256) + 0x1_0000 * (x / 0x1_0000 % 256) + 0x100_0000
        * (x / 0x100_0000 % 256) + 0x1_0000_0000 * (x / 0x1_0000_0000 % 256) + 0x100_0000_0000 * (x
        / 0x100_0000_0000 % 256) + 0x1_0000_0000_0000 * (x / 0x1_0000_0000_0000 % 256)
        + 0x100_0000_0000_0000 * (x / 0x100_0000_0000_0000 % 256)) by (bit_vector);
}

/// Writing out the value of a byte gives the byte.
pub proof fn lemma_i8_bytes_round_trip(b: u8)
    ensures
        i8_to_byte(byte_to_i8(b)) == b,
{
}

/// Writing out the value of two bytes gives the two bytes.
pub proof fn lemma_u16_bytes_round_trip(lo: u8, hi: u8)
    ensures
        u16_to_le(u16_from_le(lo, hi)) == seq![lo, hi],
        i16_to_le(i16_from_le(lo, hi)) == seq![lo, hi],
{
    assert(u16_to_le(u16_from_le(lo, hi)) =~= seq![lo, hi]);
    assert(i16_to_u16(u16_to_i16(u16_from_le(lo, hi))) == u16_from_le(lo, hi));
}

/// Writing out the value of eight bytes gives the eight bytes.
pub proof fn lemma_u64_bytes_round_trip(s: Seq<u8>)
    requires
        s.len() == 8,
    ensures
        u64_to_le(u64_from_le(s)) == s,
{
    let (b0, b1, b2, b3, b4, b5, b6, b7) = (s[0], s[1], s[2], s[3], s[4], s[5], s[6], s[7]);
    let x = u64_from_le(s);
    assert(x == b0 as u64 + 0x100 * (b1 as u64) + 0x1_0000 * (b2 as u64) + 0x100_0000 * (b3 as u64)
        + 0x1_0000_0000 * (b4 as u64) + 0x100_0000_0000 * (b5 as u64) + 0x1_0000_0000_0000 * (
    b6 as u64) + 0x100_0000_0000_0000 * (b7 as u64));
    assert(x % 256 == b0 && x / 0x100 % 256 == b1 && x / 0x1_0000 % 256 == b2 && x / 0x100_0000
        % 256 == b3 && x / 0x1_0000_0000 % 256 == b4 && x / 0x100_0000_0000 % 256 == b5 && x
        / 0x1_0000_0000_0000 % 256 == b6 && x / 0x100_0000_0000_0000 % 256 == b7) by (bit_vector)
        requires
            x == b0 as u64 + 0x100 * (b1 as u64) + 0x1_0000 * (b2 as u64) + 0x100_0000 * (b3 as u64)
                + 0x1_0000_0000 * (b4 as u64) + 0x100_0000_0000 * (b5 as u64) + 0x1_0000_0000_0000
                * (b6 as u64) + 0x100_0000_0000_0000 * (b7 as u64),
    ;
    assert(u64_to_le(x) =~= s);
}

/// Computes the byte of a signed 8-bit value.
pub fn i8_to_u8(x: i8) -> (b: u8)
    ensures
        b == i8_to_byte(x),
{
    let b: u8 = x as u8;
    assert(x as u8 == if x < 0 {
        (x + 256) as u8
    } else {
        x as u8
    }) by (bit_vector);
    b
}

/// Computes the signed 8-bit value of a byte.
pub fn u8_to_i8(b: u8) -> (x: i8)
    ensures
        x == byte_to_i8(b),
{
    let x: i8 = b as i8;
    assert(b as i8 == if b >= 128 {
        (b - 256) as i8
    } else {
        b as i8
    }) by (bit_vector);
    x
}

/// Computes the little-endian bytes of an unsigned 16-bit value.
pub fn u16_to_le_bytes(x: u16) -> (b: [u8; 2])
    ensures
        b@ == u16_to_le(x),
{
    [(x % 256) as u8, (x / 256) as u8]
}

/// Computes the unsigned 16-bit value of two little-endian bytes.
pub fn u16_from_le_bytes(lo: u8, hi: u8) -> (x: u16)
    ensures
        x == u16_from_le(lo, hi),
{
    lo as u16 + 256 * (hi as u16)
}

/// Computes the little-endian bytes of a signed 16-bit value.
pub fn i16_to_le_bytes(x: i16) -> (b: [u8; 2])
    ensures
        b@ == i16_to_le(x),
{
    let u: u16 = x as u16;
    assert(x as u16 == if x < 0 {
        (x + 65536) as u16
    } else {
        x as u16
    }) by (bit_vector);
    u16_to_le_bytes(u)
}

/// Computes the signed 16-bit value of two little-endian bytes.
pub fn i16_from_le_bytes(lo: u8, hi: u8) -> (x: i16)
    ensures
        x == i16_from_le(lo, hi),
{
    let u: u16 = u16_from_le_bytes(lo, hi);
    let x: i16 = u as i16;
    assert(u as i16 == if u >= 32768 {
        (u - 65536) as i16
    } else {
        u as i16
    }) by (bit_vector);
    x
}

/// Computes the little-endian bytes of an unsigned 64-bit value.
pub fn u64_to_le_bytes(x: u64) -> (b: [u8; 8])
    ensures
        b@ == u64_to_le(x),
{
    [
        (x % 256) as u8,
        (x / 0x100 % 256) as u8,
        (x / 0x1_0000 % 256) as u8,
        (x / 0x100_0000 % 256) as u8,
        (x / 0x1_0000_0000 % 256) as u8,
        (x / 0x100_0000_0000 % 256) as u8,
        (x / 0x1_0000_0000_0000 % 256) as u8,
        (x / 0x100_0000_0000_0000 % 256) as u8,
    ]
}

/// Computes the unsigned 64-bit value of the eight little-endian bytes that
/// start at index `at` of `buf`.
pub fn u64_from_le_bytes(buf: &[u8], at: usize) -> (x: u64)
    requires
        at + 8 <= buf@.len(),
    ensures
        x == u64_from_le(buf@.subrange(at as int, at + 8)),
{
    buf[at] as u64 + 0x100 * (buf[at + 1] as u64) + 0x1_0000 * (buf[at + 2] as u64) + 0x100_0000 * (
    buf[at + 3] as u64) + 0x1_0000_0000 * (buf[at + 4] as u64) + 0x100_0000_0000 * (buf[at
        + 5] as u64) + 0x1_0000_0000_0000 * (buf[at + 6] as u64) + 0x100_0000_0000_0000 * (buf[at
        + 7] as u64)
}

} // verus!

//! Little-endian layout of the numeric fields that packets carry.
//!
//! Every multi-byte field goes on the line least significant byte first.
//! Signed fields travel in two's complement.

use vstd::prelude::*;

verus! {

/// The two bytes of `x`, least significant first.
pub open spec fn u16_le(x: u16) -> Seq<u8> {
    seq![(x % 256) as u8, (x / 256) as u8]
}

/// The number that two little-endian bytes spell.
pub open spec fn u16_of_le(bytes: Seq<u8>) -> u16
    recommends
        bytes.len() == 2,
{
    (bytes[0] + 256 * bytes[1]) as u16
}

/// The two's complement bit pattern of `x`, read as an unsigned number.
pub open spec fn i16_bits(x: i16) -> u16 {
    if x < 0 {
        (x + 65536) as u16
    } else {
        x as u16
    }
}

/// The signed number whose two's complement bit pattern is `bits`.
pub open spec fn i16_of_bits(bits: u16) -> i16 {
    if bits >= 32768 {
        (bits - 65536) as i16
    } else {
        bits as i16
    }
}

/// The two bytes of the signed `x`, least significant first.
pub open spec fn i16_le(x: i16) -> Seq<u8> {
    u16_le(i16_bits(x))
}

/// The signed number that two little-endian bytes spell.
pub open spec fn i16_of_le(bytes: Seq<u8>) -> i16
    recommends
        bytes.len() == 2,
{
    i16_of_bits(u16_of_le(bytes))
}

/// The four bytes of `x`, least significant first.
pub open spec fn u32_le(x: u32) -> Seq<u8> {
    seq![
        (x % 256) as u8,
        (x / 256 % 256) as u8,
        (x / 256 / 256 % 256) as u8,
        (x / 256 / 256 / 256) as u8,
    ]
}

/// The number that four little-endian bytes spell.
pub open spec fn u32_of_le(bytes: Seq<u8>) -> u32
    recommends
        bytes.len() == 4,
{
    (bytes[0] + 256 * bytes[1] + 65536 * bytes[2] + 16777216 * bytes[3]) as u32
}

/// Reading back what was laid out gives the number again, and laying out
/// what was read gives the bytes again: two bytes and a `u16` determine
/// each other.
pub proof fn lemma_u16_le_inverse(x: u16, bytes: Seq<u8>)
    ensures
        u16_le(x).len() == 2,
        u16_of_le(u16_le(x)) == x,
        bytes.len() == 2 ==> u16_le(u16_of_le(bytes)) =~= bytes,
{
}

/// Two bytes and an `i16` determine each other.
pub proof fn lemma_i16_le_inverse(x: i16, bytes: Seq<u8>)
    ensures
        i16_le(x).len() == 2,
        i16_of_le(i16_le(x)) == x,
        bytes.len() == 2 ==> i16_le(i16_of_le(bytes)) =~= bytes,
{
    lemma_u16_le_inverse(i16_bits(x), bytes);
}

/// Four bytes and a `u32` determine each other.
pub proof fn lemma_u32_le_inverse(x: u32, bytes: Seq<u8>)
    ensures
        u32_le(x).len() == 4,
        u32_of_le(u32_le(x)) == x,
        bytes.len() == 4 ==> u32_le(u32_of_le(bytes)) =~= bytes,
{
    let q1: int = x as int / 256;
    let q2: int = q1 / 256;
    let q3: int = q2 / 256;
    assert(x == 256 * q1 + x % 256);
    assert(q1 == 256 * q2 + q1 % 256);
    assert(q2 == 256 * q3 + q2 % 256);
    assert(u32_of_le(u32_le(x)) == x);
    if bytes.len() == 4 {
        let b0: int = bytes[0] as int;
        let b1: int = bytes[1] as int;
        let b2: int = bytes[2] as int;
        let b3: int = bytes[3] as int;
        let r2: int = b2 + 256 * b3;
        let r1: int = b1 + 256 * r2;
        let v: int = b0 + 256 * r1;
        assert(v == b0 + 256 * b1 + 65536 * b2 + 16777216 * b3);
        assert(0 <= v < 0x1_0000_0000);
        assert(v % 256 == b0 && v / 256 == r1);
        assert(r1 % 256 == b1 && r1 / 256 == r2);
        assert(r2 % 256 == b2 && r2 / 256 == b3);
        assert(u32_of_le(bytes) as int == v);
        assert(u32_le(u32_of_le(bytes)) =~= bytes);
    }
}

/// Appends the two little-endian bytes of `x`.
pub fn push_u16(out: &mut Vec<u8>, x: u16)
    ensures
        final(out)@ == old(out)@ + u16_le(x),
{
    out.push((x % 256) as u8);
    out.push((x / 256) as u8);
}

/// Appends the two little-endian bytes of the signed `x`.
pub fn push_i16(out: &mut Vec<u8>, x: i16)
    ensures
        final(out)@ == old(out)@ + i16_le(x),
{
    let bits: u16 = if x < 0 {
        (x as i32 + 65536) as u16
    } else {
        x as u16
    };
    push_u16(out, bits);
}

/// Appends the four little-endian bytes of `x`.
pub fn push_u32(out: &mut Vec<u8>, x: u32)
    ensures
        final(out)@ == old(out)@ + u32_le(x),
{
    out.push((x % 256) as u8);
    out.push((x / 256 % 256) as u8);
    out.push((x / 256 / 256 % 256) as u8);
    out.push((x / 256 / 256 / 256) as u8);
}

/// Reads the `u16` whose little-endian bytes start at `at`.
pub fn read_u16(bytes: &[u8], at: usize) -> (x: u16)
    requires
        at + 2 <= bytes.len(),
    ensures
        x == u16_of_le(bytes@.subrange(at as int, at + 2)),
{
    bytes[at] as u16 + 256 * (bytes[at + 1] as u16)
}

/// Reads the `i16` whose little-endian bytes start at `at`.
pub fn read_i16(bytes: &[u8], at: usize) -> (x: i16)
    requires
        at + 2 <= bytes.len(),
    ensures
        x == i16_of_le(bytes@.subrange(at as int, at + 2)),
{
    let bits: u16 = read_u16(bytes, at);
    if bits >= 32768 {
        (bits as i32 - 65536) as i16
    } else {
        bits as i16
    }
}

/// Reads the `u32` whose little-endian bytes start at `at`.
pub fn read_u32(bytes: &[u8], at: usize) -> (x: u32)
    requires
        at + 4 <= bytes.len(),
    ensures
        x == u32_of_le(bytes@.subrange(at as int, at + 4)),
{
    bytes[at] as u32 + 256 * (bytes[at + 1] as u32) + 65536 * (bytes[at + 2] as u32) + 16777216
        * (bytes[at + 3] as u32)
}

} // verus!

//! Byte order of the multi-byte fields on the wire.
//!
//! A field is modelled as the sequence of its bytes; the value of a sequence
//! is the sum of its bytes weighted by powers of 256.

use vstd::prelude::*;

verus! {

/// The two bytes of `x`, least significant first.
pub open spec fn le16(x: u16) -> Seq<u8> {
    seq![(x % 256) as u8, (x / 256) as u8]
}

/// The two bytes of `x`, most significant first.
pub open spec fn be16(x: u16) -> Seq<u8> {
    seq![(x / 256) as u8, (x % 256) as u8]
}

/// The four bytes of `x`, least significant first.
pub open spec fn le32(x: u32) -> Seq<u8> {
    seq![
        (x % 256) as u8,
        (x / 0x100 % 256) as u8,
        (x / 0x1_0000 % 256) as u8,
        (x / 0x100_0000) as u8,
    ]
}

/// The number that four bytes spell when the least significant comes first.
pub open spec fn le32_value(bytes: Seq<u8>) -> int
    recommends
        bytes.len() == 4,
{
    bytes[0] + 0x100 * bytes[1] + 0x1_0000 * bytes[2] + 0x100_0000 * bytes[3]
}

/// The number that two bytes spell when the most significant comes first.
pub open spec fn be16_value(bytes: Seq<u8>) -> int
    recommends
        bytes.len() == 2,
{
    0x100 * bytes[0] + bytes[1]
}

/// Reading back the little-endian bytes of a number gives the number.
pub proof fn lemma_le32_round_trip(x: u32)
    ensures
        le32(x).len() == 4,
        le32_value(le32(x)) == x,
{
}

/// Four bytes are the little-endian bytes of the number they spell.
pub proof fn lemma_le32_bytes_round_trip(bytes: Seq<u8>)
    requires
        bytes.len() == 4,
    ensures
        0 <= le32_value(bytes) <= u32::MAX,
        le32(le32_value(bytes) as u32) == bytes,
{
    let v = le32_value(bytes);
    let (b0, b1, b2, b3) = (bytes[0] as int, bytes[1] as int, bytes[2] as int, bytes[3] as int);
    let v1 = b1 + 0x100 * b2 + 0x1_0000 * b3;
    let v2 = b2 + 0x100 * b3;
    assert(v == b0 + 0x100 * v1);
    assert(v / 0x100 == v1 && v % 0x100 == b0);
    assert(v1 == b1 + 0x100 * v2);
    assert(v1 / 0x100 == v2 && v1 % 0x100 == b1);
    assert(v / 0x1_0000 == v2) by {
        assert(v == (b0 + 0x100 * b1) + 0x1_0000 * v2);
    }
    assert(v2 / 0x100 == b3 && v2 % 0x100 == b2);
    assert(v / 0x100_0000 == b3) by {
        assert(v == (b0 + 0x100 * b1 + 0x1_0000 * b2) + 0x100_0000 * b3);
    }
    assert(le32(v as u32) =~= bytes);
}

/// Reading back the big-endian bytes of a number gives the number.
pub proof fn lemma_be16_round_trip(x: u16)
    ensures
        be16(x).len() == 2,
        be16_value(be16(x)) == x,
{
}

/// Appends the little-endian bytes of `x` to `out`.
pub fn push_le16(out: &mut Vec<u8>, x: u16)
    ensures
        final(out)@ == old(out)@ + le16(x),
{
    out.push((x % 256) as u8);
    out.push((x / 256) as u8);
    assert(out@ =~= old(out)@ + le16(x));
}

/// Appends the big-endian bytes of `x` to `out`.
pub fn push_be16(out: &mut Vec<u8>, x: u16)
    ensures
        final(out)@ == old(out)@ + be16(x),
{
    out.push((x / 256) as u8);
    out.push((x % 256) as u8);
    assert(out@ =~= old(out)@ + be16(x));
}

/// Appends the little-endian bytes of `x` to `out`.
pub fn push_le32(out: &mut Vec<u8>, x: u32)
    ensures
        final(out)@ == old(out)@ + le32(x),
{
    out.push((x % 256) as u8);
    out.push((x / 0x100 % 256) as u8);
    out.push((x / 0x1_0000 % 256) as u8);
    out.push((x / 0x100_0000) as u8);
    assert(out@ =~= old(out)@ + le32(x));
}

/// Reads the little-endian number in the four bytes of `buf` that start at `at`.
pub fn read_le32(buf: &[u8], at: usize) -> (x: u32)
    requires
        at + 4 <= buf.len(),
    ensures
        x == le32_value(buf@.subrange(at as int, at + 4)),
{
    let b0: u32 = buf[at] as u32;
    let b1: u32 = buf[at + 1] as u32;
    let b2: u32 = buf[at + 2] as u32;
    let b3: u32 = buf[at + 3] as u32;
    b0 + 0x100 * b1 + 0x1_0000 * b2 + 0x100_0000 * b3
}

} // verus!

//! Big-endian (network order) integers on the wire.

use vstd::prelude::*;

verus! {

/// The two bytes of `x` in network order, most significant first.
pub open spec fn u16_bytes(x: u16) -> Seq<u8> {
    seq![(x / 256) as u8, (x % 256) as u8]
}

/// The 16-bit integer whose network-order bytes are `hi`, `lo`.
pub open spec fn u16_value(hi: u8, lo: u8) -> u16 {
    (hi * 256 + lo) as u16
}

/// The four bytes of `x` in network order, most significant first.
pub open spec fn u32_bytes(x: u32) -> Seq<u8> {
    seq![
        (x / 0x100_0000) as u8,
        (x / 0x1_0000 % 256) as u8,
        (x / 0x100 % 256) as u8,
        (x % 256) as u8,
    ]
}

/// The 32-bit integer whose network-order bytes are `b0`, `b1`, `b2`, `b3`.
pub open spec fn u32_value(b0: u8, b1: u8, b2: u8, b3: u8) -> u32 {
    (b0 * 0x100_0000 + b1 * 0x1_0000 + b2 * 0x100 + b3) as u32
}

/// Appends the network-order bytes of `x` to `out`.
pub fn push_u16(out: &mut Vec<u8>, x: u16)
    ensures
        final(out)@ == old(out)@ + u16_bytes(x),
{
    let hi: u8 = (x >> 8) as u8;
    let lo: u8 = (x & 0xff) as u8;
    assert(x >> 8 == x / 256 && x & 0xff == x % 256) by (bit_vector);
    out.push(hi);
    out.push(lo);
}

/// Appends the network-order bytes of `x` to `out`.
pub fn push_u32(out: &mut Vec<u8>, x: u32)
    ensures
        final(out)@ == old(out)@ + u32_bytes(x),
{
    let b0: u8 = (x >> 24) as u8;
    let b1: u8 = ((x >> 16) & 0xff) as u8;
    let b2: u8 = ((x >> 8) & 0xff) as u8;
    let b3: u8 = (x & 0xff) as u8;
    assert(x >> 24 == x / 0x100_0000 && (x >> 16) & 0xff == x / 0x1_0000 % 256 && (x >> 8) & 0xff
        == x / 0x100 % 256 && x & 0xff == x % 256) by (bit_vector);
    out.push(b0);
    out.push(b1);
    out.push(b2);
    out.push(b3);
}

/// Reads the 16-bit network-order integer at `bytes[at..at + 2]`.
pub fn read_u16(bytes: &[u8], at: usize) -> (x: u16)
    requires
        at + 2 <= bytes@.len(),
    ensures
        x == u16_value(bytes@[at as int], bytes@[at + 1]),
{
    let hi: u8 = bytes[at];
    let lo: u8 = bytes[at + 1];
    assert(((hi as u16) << 8) | (lo as u16) == hi * 256 + lo) by (bit_vector);
    ((hi as u16) << 8) | (lo as u16)
}

/// Reads the 32-bit network-order integer at `bytes[at..at + 4]`.
pub fn read_u32(bytes: &[u8], at: usize) -> (x: u32)
    requires
        at + 4 <= bytes@.len(),
    ensures
        x == u32_value(bytes@[at as int], bytes@[at + 1], bytes@[at + 2], bytes@[at + 3]),
{
    let b0: u8 = bytes[at];
    let b1: u8 = bytes[at + 1];
    let b2: u8 = bytes[at + 2];
    let b3: u8 = bytes[at + 3];
    assert(((b0 as u32) << 24) | ((b1 as u32) << 16) | ((b2 as u32) << 8) | (b3 as u32) == b0
        * 0x100_0000 + b1 * 0x1_0000 + b2 * 0x100 + b3) by (bit_vector);
    ((b0 as u32) << 24) | ((b1 as u32) << 16) | ((b2 as u32) << 8) | (b3 as u32)
}

/// Reading back what was written gives the same integer.
pub proof fn lemma_u16_round_trip(x: u16)
    ensures
        u16_value(u16_bytes(x)[0], u16_bytes(x)[1]) == x,
{
}

/// Reading back what was written gives the same integer.
pub proof fn lemma_u32_round_trip(x: u32)
    ensures
        u32_value(u32_bytes(x)[0], u32_bytes(x)[1], u32_bytes(x)[2], u32_bytes(x)[3]) == x,
{
}

/// Writing what was read gives the same bytes.
pub proof fn lemma_u16_bytes_of_value(hi: u8, lo: u8)
    ensures
        u16_bytes(u16_value(hi, lo)) == seq![hi, lo],
{
}

/// Writing what was read gives the same bytes.
pub proof fn lemma_u32_bytes_of_value(b0: u8, b1: u8, b2: u8, b3: u8)
    ensures
        u32_bytes(u32_value(b0, b1, b2, b3)) == seq![b0, b1, b2, b3],
{
}

} // verus!

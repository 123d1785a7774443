//! Little-endian integers as they appear on the wire.

use vstd::prelude::*;

verus! {

/// The 16-bit value whose little-endian encoding is `lo, hi`.
pub open spec fn u16_from_le(lo: u8, hi: u8) -> u16 {
    (lo + 256 * hi) as u16
}

/// The 32-bit value whose little-endian encoding is `b0, b1, b2, b3`.
pub open spec fn u32_from_le(b0: u8, b1: u8, b2: u8, b3: u8) -> u32 {
    (b0 + 256 * b1 + 65536 * b2 + 16777216 * b3) as u32
}

/// The little-endian encoding of a 16-bit value: low byte first.
pub open spec fn u16_to_le(v: u16) -> Seq<u8> {
    seq![(v % 256) as u8, (v / 256) as u8]
}

/// Reads a 16-bit value from its two little-endian bytes.
pub fn read_u16_le(lo: u8, hi: u8) -> (v: u16)
    ensures
        v == u16_from_le(lo, hi),
{
    lo as u16 + 256 * (hi as u16)
}

/// Reads a 32-bit value from its four little-endian bytes.
pub fn read_u32_le(b0: u8, b1: u8, b2: u8, b3: u8) -> (v: u32)
    ensures
        v == u32_from_le(b0, b1, b2, b3),
{
    b0 as u32 + 256 * (b1 as u32) + 65536 * (b2 as u32) + 16777216 * (b3 as u32)
}

/// Splits a 16-bit value into its little-endian bytes.
pub fn write_u16_le(v: u16) -> (b: [u8; 2])
    ensures
        b@ == u16_to_le(v),
{
    let b = [(v % 256) as u8, (v / 256) as u8];
    assert(b@ =~= u16_to_le(v));
    b
}

/// Encoding a value and reading it back gives the value.
pub proof fn lemma_u16_le_round_trip(v: u16)
    ensures
        u16_to_le(v).len() == 2,
        u16_from_le(u16_to_le(v)[0], u16_to_le(v)[1]) == v,
{
}

/// Reading two bytes and encoding the value gives the two bytes.
pub proof fn lemma_u16_le_bytes_round_trip(lo: u8, hi: u8)
    ensures
        u16_to_le(u16_from_le(lo, hi)) == seq![lo, hi],
{
    assert(u16_to_le(u16_from_le(lo, hi)) =~= seq![lo, hi]);
}

} // verus!

//! Small shared facts about bitwise operations on the machine's word sizes.

use vstd::prelude::*;

verus! {

/// Masking with `m` never exceeds `m`.
pub proof fn lemma_u8_and_le(x: u8, m: u8)
    by (bit_vector)
    ensures
        (x & m) <= m,
{
}

/// Masking with `m` never exceeds `m`.
pub proof fn lemma_u16_and_le(x: u16, m: u16)
    by (bit_vector)
    ensures
        (x & m) <= m,
{
}

/// A 16-bit word assembled from a high byte below 0x40 stays below 0x4000.
pub proof fn lemma_u16_from_bytes_le(hi: u8, lo: u8)
    by (bit_vector)
    ensures
        hi <= 0x3F ==> ((hi as u16) << 8 | lo as u16) <= 0x3FFF,
        ((hi as u16) << 8 | lo as u16) >> 8 == hi as u16,
        ((hi as u16) << 8 | lo as u16) & 0xFF == lo as u16,
{
}

} // verus!

//! Facts about bits that the chips' registers rest on.

use vstd::prelude::*;

verus! {

/// Bit `n` of a byte, as a number: 0 or 1.
pub open spec fn bit(byte: u8, n: u8) -> u8 {
    (byte >> n) & 1
}

/// Bit `n` of a word, as a number: 0 or 1.
pub open spec fn bit16(word: u16, n: u16) -> u16 {
    (word >> n) & 1
}

/// Two bits pack into a number below four.
pub proof fn lemma_bit_pair(low: u8, high: u8)
    by (bit_vector)
    requires
        low <= 1,
        high <= 1,
    ensures
        (high << 1) | low == (2 * high + low) as u8,
{
}

/// A bit of a byte is 0 or 1.
pub proof fn lemma_bit_small(byte: u8, n: u8)
    by (bit_vector)
    ensures
        (byte >> n) & 1 <= 1,
{
}

/// A bit of a sixteen-bit belt is 0 or 1.
pub proof fn lemma_bit16_small(word: u16, n: u16)
    by (bit_vector)
    ensures
        (word >> n) & 1 <= 1,
{
}

/// Two bits of a byte are a number below four.
pub proof fn lemma_two_bits_small(byte: u8, n: u8)
    by (bit_vector)
    ensures
        (byte >> n) & 0b11 < 4,
{
}

/// The bits of a byte, by division.
pub proof fn lemma_places_of_a_byte(byte: u8)
    by (bit_vector)
    ensures
        (byte >> 0u8) & 1 == byte % 2,
        (byte >> 1u8) & 1 == byte / 2 % 2,
        (byte >> 2u8) & 1 == byte / 4 % 2,
        (byte >> 3u8) & 1 == byte / 8 % 2,
        (byte >> 4u8) & 1 == byte / 16 % 2,
        (byte >> 5u8) & 1 == byte / 32 % 2,
        (byte >> 6u8) & 1 == byte / 64 % 2,
        (byte >> 7u8) & 1 == byte / 128,
{
}

} // verus!

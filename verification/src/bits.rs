//! Facts about bitwise operations that the default solver does not see.
use vstd::prelude::*;

verus! {

/// A mask bounds what it keeps.
pub proof fn lemma_and_le_u8(x: u8, m: u8)
    ensures
        x & m <= m,
        x & m <= x,
{
    assert(x & m <= m && x & m <= x) by (bit_vector);
}

/// A mask bounds what it keeps.
pub proof fn lemma_and_le_u16(x: u16, m: u16)
    ensures
        x & m <= m,
        x & m <= x,
{
    assert(x & m <= m && x & m <= x) by (bit_vector);
}

/// A mask bounds what it keeps.
pub proof fn lemma_and_le_u32(x: u32, m: u32)
    ensures
        x & m <= m,
        x & m <= x,
{
    assert(x & m <= m && x & m <= x) by (bit_vector);
}

/// The byte fields that instruction and register decoding picks out, as plain arithmetic:
/// a mask of the low bits is the remainder, a right shift the quotient.
pub proof fn lemma_u8_fields(x: u8)
    ensures
        x & 0x03 == x % 4,
        x & 0x07 == x % 8,
        x & 0x7F == x % 128,
        x >> 3u8 == x / 8,
{
    vstd::bits::lemma_low_bits_mask_values();
    vstd::arithmetic::power2::lemma2_to64();
    vstd::bits::lemma_u8_low_bits_mask_is_mod(x, 2);
    vstd::bits::lemma_u8_low_bits_mask_is_mod(x, 3);
    vstd::bits::lemma_u8_low_bits_mask_is_mod(x, 7);
    vstd::bits::lemma_u8_shr_is_div(x, 3);
}

/// The halfword fields of a Thumb instruction, as plain arithmetic.
pub proof fn lemma_u16_fields(x: u16)
    ensures
        x & 0x07 == x % 8,
        x & 0x0F == x % 16,
        x >> 3u16 == x / 8,
        x >> 6u16 == x / 64,
        x >> 11u16 == x / 2048,
{
    vstd::bits::lemma_low_bits_mask_values();
    vstd::arithmetic::power2::lemma2_to64();
    vstd::bits::lemma_u16_low_bits_mask_is_mod(x, 3);
    vstd::bits::lemma_u16_low_bits_mask_is_mod(x, 4);
    vstd::bits::lemma_u16_shr_is_div(x, 3);
    vstd::bits::lemma_u16_shr_is_div(x, 6);
    vstd::bits::lemma_u16_shr_is_div(x, 11);
}

} // verus!

//! Shared facts about machine words: composing and splitting 16-bit words,
//! and bounds of masked values, used throughout the bus and the CPU.

use vstd::prelude::*;

verus! {

/// The 16-bit word with high byte `hi` and low byte `lo`.
pub open spec fn word(hi: u8, lo: u8) -> u16 {
    (hi * 256 + lo) as u16
}

/// The high byte of a 16-bit word.
pub open spec fn high_byte(v: u16) -> u8 {
    (v >> 8) as u8
}

/// The low byte of a 16-bit word.
pub open spec fn low_byte(v: u16) -> u8 {
    v as u8
}

/// Shifting and masking compute exactly the byte composition and splits above.
pub proof fn lemma_word_parts()
    by (bit_vector)
    ensures
        forall|hi: u8, lo: u8| #[trigger] ((hi as u16) << 8 | (lo as u16)) == hi * 256 + lo,
        forall|v: u16| #[trigger] (v >> 8) == v / 256,
        forall|v: u16| #[trigger] ((v as u8) as u16) == v % 256,
{
}

/// A value masked by `m` is at most `m` (16-bit).
pub proof fn lemma_mask_bound16(x: u16, m: u16)
    by (bit_vector)
    ensures
        x & m <= m,
{
}

/// A value masked by `m` is at most `m` (8-bit).
pub proof fn lemma_mask_bound8(x: u8, m: u8)
    by (bit_vector)
    ensures
        x & m <= m,
{
}

} // verus!

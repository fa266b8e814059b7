//! Bytes, words and nibbles: the arithmetic reading of the shifts and masks
//! that the rest of the crate is built from.

use vstd::prelude::*;

verus! {

/// The high byte of a 16-bit word.
pub open spec fn spec_high(x: u16) -> u8 {
    (x / 256) as u8
}

/// The low byte of a 16-bit word.
pub open spec fn spec_low(x: u16) -> u8 {
    (x % 256) as u8
}

/// The word whose high byte is `hi` and whose low byte is `lo`.
pub open spec fn spec_word(hi: u8, lo: u8) -> u16 {
    (hi * 256 + lo) as u16
}

/// An integer reduced modulo 2^16.
pub open spec fn wrap16(i: int) -> u16 {
    (i % 0x10000) as u16
}

/// A byte read as a two's-complement number, in `-128..=127`.
pub open spec fn spec_signed(e: u8) -> int {
    if e >= 128 {
        e - 256
    } else {
        e as int
    }
}

/// `base + offset` modulo 2^16, the offset being a signed byte.
pub open spec fn spec_offset(base: u16, e: u8) -> u16 {
    wrap16(base + spec_signed(e))
}

pub fn high(x: u16) -> (r: u8)
    ensures
        r == spec_high(x),
{
    assert(x >> 8 == x / 256) by (bit_vector);
    (x >> 8) as u8
}

pub fn low(x: u16) -> (r: u8)
    ensures
        r == spec_low(x),
{
    assert(x & 0x00FF == x % 256) by (bit_vector);
    (x & 0x00FF) as u8
}

pub fn word(hi: u8, lo: u8) -> (r: u16)
    ensures
        r == spec_word(hi, lo),
        spec_high(r) == hi,
        spec_low(r) == lo,
{
    let h: u16 = hi as u16;
    let l: u16 = lo as u16;
    assert((h << 8) | l == h * 256 + l) by (bit_vector)
        requires
            h < 256,
            l < 256,
    ;
    (h << 8) | l
}

/// The low four bits of a byte.
pub fn nibble(x: u8) -> (r: u8)
    ensures
        r == x % 16,
{
    assert(x & 0x0F == x % 16) by (bit_vector);
    x & 0x0F
}

/// The low twelve bits of a word.
pub fn low12(x: u16) -> (r: u16)
    ensures
        r == x % 4096,
{
    assert(x & 0x0FFF == x % 4096) by (bit_vector);
    x & 0x0FFF
}

/// Adds a signed byte to a word, wrapping modulo 2^16.
pub fn offset(base: u16, e: u8) -> (r: u16)
    ensures
        r == spec_offset(base, e),
{
    if e < 128 {
        base.wrapping_add(e as u16)
    } else {
        base.wrapping_sub(256 - e as u16)
    }
}

/// A word and its two bytes determine each other.
pub proof fn lemma_word_bytes(x: u16)
    ensures
        spec_word(spec_high(x), spec_low(x)) == x,
{
}

} // verus!

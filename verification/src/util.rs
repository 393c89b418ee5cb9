//! Byte-level helpers for the 16-bit, little-endian memory bus.

use vstd::prelude::*;

verus! {

/// Low byte of a 16-bit value.
pub open spec fn lo_byte(v: u16) -> u8 {
    (v % 0x100) as u8
}

/// High byte of a 16-bit value.
pub open spec fn hi_byte(v: u16) -> u8 {
    (v / 0x100) as u8
}

/// The 16-bit value with the given low and high bytes.
pub open spec fn word_of(lo: u8, hi: u8) -> u16 {
    (lo + hi * 0x100) as u16
}

/// An address plus an offset, wrapping around the 16-bit address space.
pub open spec fn addr_add(a: u16, k: u16) -> u16 {
    ((a + k) % 0x10000) as u16
}

/// Combine a `(low, high)` byte pair into one little-endian 16-bit value.
pub fn join_u8(pair: (u8, u8)) -> (r: u16)
    ensures
        r == word_of(pair.0, pair.1),
{
    pair.0 as u16 + pair.1 as u16 * 0x100
}

/// Split a 16-bit value into its `(low, high)` bytes.
pub fn split_u16(v: u16) -> (r: (u8, u8))
    ensures
        r.0 == lo_byte(v),
        r.1 == hi_byte(v),
{
    ((v % 0x100) as u8, (v / 0x100) as u8)
}

/// Splitting a value and joining the bytes again gives the value back.
pub proof fn lemma_word_bytes(v: u16)
    ensures
        word_of(lo_byte(v), hi_byte(v)) == v,
{
}

} // verus!

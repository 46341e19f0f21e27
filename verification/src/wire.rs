//! Assembling and splitting the multi-byte integer fields of the wire and
//! file formats.

use vstd::prelude::*;

verus! {

/// The 16-bit value stored big-endian as the bytes `hi`, `lo`.
pub open spec fn word_be(hi: u8, lo: u8) -> u16 {
    (hi * 256 + lo) as u16
}

/// The 16-bit value stored little-endian as the bytes `lo`, `hi`.
pub open spec fn word_le(lo: u8, hi: u8) -> u16 {
    (hi * 256 + lo) as u16
}

/// The 32-bit value stored big-endian as the bytes `b0` (most significant)
/// through `b3` (least significant).
pub open spec fn dword_be(b0: u8, b1: u8, b2: u8, b3: u8) -> u32 {
    (b0 * 0x1000000 + b1 * 0x10000 + b2 * 0x100 + b3) as u32
}

/// The 24-bit value stored little-endian as the bytes `b0` (least
/// significant) through `b2` (most significant).
pub open spec fn u24_le(b0: u8, b1: u8, b2: u8) -> u32 {
    (b2 * 0x10000 + b1 * 0x100 + b0) as u32
}

/// Read a big-endian 16-bit field from its two bytes.
pub fn read_word_be(hi: u8, lo: u8) -> (r: u16)
    ensures
        r == word_be(hi, lo),
{
    (hi as u16) * 256 + (lo as u16)
}

/// Read a little-endian 16-bit field from its two bytes.
pub fn read_word_le(lo: u8, hi: u8) -> (r: u16)
    ensures
        r == word_le(lo, hi),
{
    (hi as u16) * 256 + (lo as u16)
}

/// Read a big-endian 32-bit field from its four bytes.
pub fn read_dword_be(b0: u8, b1: u8, b2: u8, b3: u8) -> (r: u32)
    ensures
        r == dword_be(b0, b1, b2, b3),
{
    (b0 as u32) * 0x1000000 + (b1 as u32) * 0x10000 + (b2 as u32) * 0x100 + (b3 as u32)
}

/// Read a little-endian 24-bit field from its three bytes.
pub fn read_u24_le(b0: u8, b1: u8, b2: u8) -> (r: u32)
    ensures
        r == u24_le(b0, b1, b2),
{
    (b2 as u32) * 0x10000 + (b1 as u32) * 0x100 + (b0 as u32)
}

/// The low byte of a 16-bit value.
pub open spec fn lo_byte(x: u16) -> u8 {
    (x % 256) as u8
}

/// The high byte of a 16-bit value.
pub open spec fn hi_byte(x: u16) -> u8 {
    (x / 256) as u8
}

/// Split a 16-bit value into its low byte.
pub fn split_lo(x: u16) -> (r: u8)
    ensures
        r == lo_byte(x),
{
    (x % 256) as u8
}

/// Split a 16-bit value into its high byte.
pub fn split_hi(x: u16) -> (r: u8)
    ensures
        r == hi_byte(x),
{
    (x / 256) as u8
}

/// A big-endian 16-bit field reassembles to the value it was split from.
pub proof fn lemma_word_be_split(x: u16)
    ensures
        word_be(hi_byte(x), lo_byte(x)) == x,
{
}

} // verus!

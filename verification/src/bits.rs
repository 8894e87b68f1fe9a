//! Bytes and words as numbers: the arithmetic reading of the bit operations
//! that the machine is built from.

use vstd::prelude::*;

verus! {

/// The low byte of a word.
pub open spec fn lo_byte(w: u16) -> u8 {
    (w % 256) as u8
}

/// The high byte of a word.
pub open spec fn hi_byte(w: u16) -> u8 {
    (w / 256) as u8
}

/// The word made of a low and a high byte (little-endian order).
pub open spec fn word(lo: u8, hi: u8) -> u16 {
    (hi as int * 256 + lo as int) as u16
}

/// An integer reduced to a byte.
pub open spec fn wrap8(i: int) -> u8 {
    (i % 256) as u8
}

/// An integer reduced to a word.
pub open spec fn wrap16(i: int) -> u16 {
    (i % 65536) as u16
}

/// A byte read as a two's-complement number.
pub open spec fn signed(b: u8) -> int {
    if b < 128 {
        b as int
    } else {
        b as int - 256
    }
}

/// A byte with the bits of `mask` switched on or off.
pub open spec fn with_bits(b: u8, mask: u8, on: bool) -> u8 {
    if on {
        b | mask
    } else {
        b & !mask
    }
}

/// Every bit of `mask` is set in `b`.
pub open spec fn has_bits(b: u8, mask: u8) -> bool {
    b & mask == mask
}

/// Composing and splitting words.
pub proof fn lemma_word(lo: u8, hi: u8, w: u16)
    by (bit_vector)
    ensures
        ((hi as u16) << 8) | (lo as u16) == (hi as u16) * 256 + (lo as u16),
        (w >> 8) == w / 256,
        (w >> 8) < 256,
        (w & 0xff) == w % 256,
        (w & 0xff00) == (w / 256) * 256,
        (w & 0x00ff == 0x00ff) == (w % 256 == 255),
{
}

/// Switching one bit leaves it on or off, and leaves every other bit as it
/// was.
pub proof fn lemma_with_bits(b: u8, mask: u8, other: u8)
    by (bit_vector)
    requires
        mask == 0x01u8 || mask == 0x02u8 || mask == 0x04u8 || mask == 0x08u8 || mask == 0x10u8
            || mask == 0x20u8 || mask == 0x40u8 || mask == 0x80u8,
        other == 0x01u8 || other == 0x02u8 || other == 0x04u8 || other == 0x08u8 || other
            == 0x10u8 || other == 0x20u8 || other == 0x40u8 || other == 0x80u8,
    ensures
        (b | mask) & mask == mask,
        (b & !mask) & mask != mask,
        other != mask ==> ((b | mask) & other == other) == (b & other == other),
        other != mask ==> ((b & !mask) & other == other) == (b & other == other),
{
}

/// Shifts and rotates of a byte read as arithmetic.
pub proof fn lemma_shifts(b: u8)
    by (bit_vector)
    ensures
        (b >> 7 == 1) == (b >= 128),
        (b & 1 == 1) == (b % 2 == 1),
        b << 1 == (b % 128) * 2,
        b >> 1 == b / 2,
        (b & 0b1000_0000 != 0) == (b >= 128),
        (b & 0b0100_0000 != 0) == ((b / 64) % 2 == 1),
{
}

/// Rotates of a byte with the carry coming in, read as arithmetic.
pub proof fn lemma_rotates(b: u8)
    by (bit_vector)
    ensures
        (b << 1) | 1 == (b % 128) * 2 + 1,
        (b >> 1) | 0b1000_0000 == b / 2 + 128,
{
}

/// The test that the processor makes for a signed overflow: the operands
/// have the same sign and the result has the other one.
pub proof fn lemma_overflow_test(a: u8, m: u8, result: u8)
    by (bit_vector)
    ensures
        ((m ^ result) & (result ^ a) & 0x80 != 0) == ((a >= 128) == (m >= 128) && (result >= 128)
            != (a >= 128)),
{
}

/// Keeping the eleven low bits of an address is taking it modulo 0x0800.
pub proof fn lemma_low_eleven_bits(addr: u16)
    by (bit_vector)
    ensures
        addr & 0b111_1111_1111 == addr % 0x0800,
{
}

} // verus!

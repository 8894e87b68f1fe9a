//! The mask register of the picture unit, behind 0x2001. Rendering reads
//! it; writing it has no other effect.
//!
//! ```text
//! 7  bit  0
//! BGRs bMmG
//! |||| |||+- greyscale
//! |||| ||+-- show the background in the leftmost 8 pixels
//! |||| |+--- show sprites in the leftmost 8 pixels
//! |||| +---- show the background
//! |||+------ show sprites
//! ||+------- emphasize red
//! |+-------- emphasize green
//! +--------- emphasize blue
//! ```

use crate::bits::has_bits;
use vstd::prelude::*;

verus! {

/// The bits of the mask register.
#[derive(Clone, Copy, Debug, PartialEq, Eq, Structural)]
pub struct PPUMASK {
    pub bits: u8,
}

impl PPUMASK {
    pub const GREYSCALE: u8 = 0b0000_0001;

    pub const SHOW_BACKGROUND_LEFT: u8 = 0b0000_0010;

    pub const SHOW_SPRITES_LEFT: u8 = 0b0000_0100;

    pub const SHOW_BACKGROUND: u8 = 0b0000_1000;

    pub const SHOW_SPRITES: u8 = 0b0001_0000;

    pub const EMPHASIZE_RED: u8 = 0b0010_0000;

    pub const EMPHASIZE_GREEN: u8 = 0b0100_0000;

    pub const EMPHASIZE_BLUE: u8 = 0b1000_0000;

    /// Every bit of `mask` is set.
    pub open spec fn has(&self, mask: u8) -> bool {
        has_bits(self.bits, mask)
    }

    /// All bits clear.
    pub fn new() -> (r: Self)
        ensures
            r.bits == 0,
    {
        PPUMASK { bits: 0 }
    }

    /// The register holding `bits`; every bit has a meaning, so none is
    /// dropped.
    pub fn from_bits_truncate(bits: u8) -> (r: Self)
        ensures
            r.bits == bits,
    {
        PPUMASK { bits }
    }

    pub fn bits(&self) -> (r: u8)
        ensures
            r == self.bits,
    {
        self.bits
    }

    pub fn contains(&self, mask: u8) -> (r: bool)
        ensures
            r == self.has(mask),
    {
        self.bits & mask == mask
    }
}

} // verus!

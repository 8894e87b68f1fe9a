//! The status register of the picture unit, behind 0x2002.
//!
//! ```text
//! 7  bit  0
//! VSO. ....
//! |||+-++++- unused
//! ||+------- sprite overflow
//! |+-------- sprite zero hit
//! +--------- the vertical blank has started
//! ```

use crate::bits::{has_bits, with_bits};
use vstd::prelude::*;

verus! {

/// The bits of the status register.
#[derive(Clone, Copy, Debug, PartialEq, Eq, Structural)]
pub struct PPUSTATUS {
    pub bits: u8,
}

impl PPUSTATUS {
    pub const UNUSED1: u8 = 0b0000_0001;

    pub const UNUSED2: u8 = 0b0000_0010;

    pub const UNUSED3: u8 = 0b0000_0100;

    pub const UNUSED4: u8 = 0b0000_1000;

    pub const UNUSED5: u8 = 0b0001_0000;

    pub const SPRITE_OVERFLOW: u8 = 0b0010_0000;

    pub const SPRITE_ZERO_HIT: u8 = 0b0100_0000;

    pub const VBLANK_STARTED: u8 = 0b1000_0000;

    /// Every bit of `mask` is set.
    pub open spec fn has(&self, mask: u8) -> bool {
        has_bits(self.bits, mask)
    }

    /// The register with the bits of `mask` switched on or off.
    pub open spec fn with(&self, mask: u8, value: bool) -> PPUSTATUS {
        PPUSTATUS { bits: with_bits(self.bits, mask, value) }
    }

    /// The vertical blank has started.
    pub open spec fn in_vblank(&self) -> bool {
        self.has(Self::VBLANK_STARTED)
    }

    /// All bits clear.
    pub fn new() -> (r: Self)
        ensures
            r.bits == 0,
    {
        PPUSTATUS { bits: 0 }
    }

    /// The register holding `bits`; every bit has a meaning, so none is
    /// dropped.
    pub fn from_bits_truncate(bits: u8) -> (r: Self)
        ensures
            r.bits == bits,
    {
        PPUSTATUS { bits }
    }

    pub fn bits(&self) -> (r: u8)
        ensures
            r == self.bits,
    {
        self.bits
    }

    pub fn contains(&self, mask: u8) -> (r: bool)
        ensures
            r == self.has(mask),
    {
        self.bits & mask == mask
    }

    /// Switches the bits of `mask` on or off.
    pub fn set(&mut self, mask: u8, value: bool)
        ensures
            *final(self) == old(self).with(mask, value),
    {
        if value {
            self.bits = self.bits | mask;
        } else {
            self.bits = self.bits & !mask;
        }
    }
}

} // verus!

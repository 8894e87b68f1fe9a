//! The control register of the picture unit, behind 0x2000.
//!
//! ```text
//! 7  bit  0
//! VPHB SINN
//! |||| ||++- base nametable (0: 0x2000, 1: 0x2400, 2: 0x2800, 3: 0x2C00)
//! |||| |+--- address increment per data access (0: 1, across; 1: 32, down)
//! |||| +---- pattern table of 8x8 sprites (0: 0x0000, 1: 0x1000)
//! |||+------ pattern table of the background (0: 0x0000, 1: 0x1000)
//! ||+------- sprite size (0: 8x8, 1: 8x16)
//! |+-------- master/slave select
//! +--------- raise an interrupt when the vertical blank starts
//! ```

use crate::bits::has_bits;
use vstd::prelude::*;

verus! {

/// The bits of the control register.
#[derive(Clone, Copy, Debug, PartialEq, Eq, Structural)]
pub struct PPUCTRL {
    pub bits: u8,
}

impl PPUCTRL {
    pub const NAMETABLE1: u8 = 0b0000_0001;

    pub const NAMETABLE2: u8 = 0b0000_0010;

    pub const VRAM_ADD_INCREMENT: u8 = 0b0000_0100;

    pub const SPRITE_PATTERN_ADDR: u8 = 0b0000_1000;

    pub const BACKGROUND_PATTERN_ADDR: u8 = 0b0001_0000;

    pub const SPRITE_SIZE: u8 = 0b0010_0000;

    pub const MASTER_SLAVE_SELECT: u8 = 0b0100_0000;

    pub const GENERATE_NMI: u8 = 0b1000_0000;

    /// Every bit of `mask` is set.
    pub open spec fn has(&self, mask: u8) -> bool {
        has_bits(self.bits, mask)
    }

    /// The start of the vertical blank raises an interrupt.
    pub open spec fn nmi_enabled(&self) -> bool {
        self.has(Self::GENERATE_NMI)
    }

    /// What an access of the data port adds to the address.
    pub open spec fn increment(&self) -> u8 {
        if self.has(Self::VRAM_ADD_INCREMENT) {
            32
        } else {
            1
        }
    }

    /// Start of the pattern table that the background draws from.
    pub open spec fn background_bank(&self) -> int {
        if self.has(Self::BACKGROUND_PATTERN_ADDR) {
            0x1000
        } else {
            0
        }
    }

    /// Start of the pattern table that the sprites draw from.
    pub open spec fn sprite_bank(&self) -> int {
        if self.has(Self::SPRITE_PATTERN_ADDR) {
            0x1000
        } else {
            0
        }
    }

    /// All bits clear.
    pub fn new() -> (r: Self)
        ensures
            r.bits == 0,
    {
        PPUCTRL { bits: 0 }
    }

    /// The register holding `bits`; every bit has a meaning, so none is
    /// dropped.
    pub fn from_bits_truncate(bits: u8) -> (r: Self)
        ensures
            r.bits == bits,
    {
        PPUCTRL { bits }
    }

    pub fn bits(&self) -> (r: u8)
        ensures
            r == self.bits,
    {
        self.bits
    }

    pub fn contains(&self, mask: u8) -> (r: bool)
        ensures
            r == self.has(mask),
    {
        self.bits & mask == mask
    }

    /// What an access of the data port adds to the address: 1 or 32.
    pub fn vram_addr_increment(&self) -> (r: u8)
        ensures
            r == self.increment(),
    {
        if !self.contains(PPUCTRL::VRAM_ADD_INCREMENT) {
            1
        } else {
            32
        }
    }
}

} // verus!

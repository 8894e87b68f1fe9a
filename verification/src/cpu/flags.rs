//! The status register of the processor.
//!
//! ```text
//! 7  bit  0
//! NV1B DIZC
//! |||| |||+- carry
//! |||| ||+-- zero
//! |||| |+--- interrupt disable
//! |||| +---- decimal mode, which this processor ignores
//! |||+------ break: only set in the copy that an instruction pushes
//! ||+------- unused: set in every copy that is pushed
//! |+-------- overflow
//! +--------- negative
//! ```

use crate::bits::{has_bits, with_bits};
use vstd::prelude::*;

verus! {

/// The flags of the processor.
#[derive(Clone, Copy, Debug, PartialEq, Eq, Structural)]
pub struct CPUFlags {
    pub bits: u8,
}

impl CPUFlags {
    pub const CARRY: u8 = 0b0000_0001;

    pub const ZERO: u8 = 0b0000_0010;

    pub const INTERRUPT_DISABLE: u8 = 0b0000_0100;

    pub const DECIMAL_MODE: u8 = 0b0000_1000;

    pub const BREAK: u8 = 0b0001_0000;

    pub const BREAK2: u8 = 0b0010_0000;

    pub const OVERFLOW: u8 = 0b0100_0000;

    pub const NEGATIVE: u8 = 0b1000_0000;

    /// The flags after a reset: interrupt disable and the unused bit.
    pub const RESET: u8 = 0b0010_0100;

    /// Every flag of `mask` is set.
    pub open spec fn has(&self, mask: u8) -> bool {
        has_bits(self.bits, mask)
    }

    /// The flags with those of `mask` switched on or off.
    pub open spec fn with(&self, mask: u8, value: bool) -> CPUFlags {
        CPUFlags { bits: with_bits(self.bits, mask, value) }
    }

    /// The carry as a number.
    pub open spec fn carry(&self) -> int {
        if self.has(Self::CARRY) {
            1
        } else {
            0
        }
    }

    /// The flags given by `bits`; every bit is a flag, so none is dropped.
    pub fn from_bits_truncate(bits: u8) -> (r: Self)
        ensures
            r.bits == bits,
    {
        CPUFlags { bits }
    }

    /// The flags given by `bits`.
    pub fn from_bits_retain(bits: u8) -> (r: Self)
        ensures
            r.bits == bits,
    {
        CPUFlags { bits }
    }

    pub fn bits(&self) -> (r: u8)
        ensures
            r == self.bits,
    {
        self.bits
    }

    pub fn contains(&self, mask: u8) -> (r: bool)
        ensures
            r == self.has(mask),
    {
        self.bits & mask == mask
    }

    /// Switches the flags of `mask` on or off.
    pub fn set(&mut self, mask: u8, value: bool)
        ensures
            *final(self) == old(self).with(mask, value),
    {
        if value {
            self.bits = self.bits | mask;
        } else {
            self.bits = self.bits & !mask;
        }
    }

    /// Switches the flags of `mask` on.
    pub fn insert(&mut self, mask: u8)
        ensures
            *final(self) == old(self).with(mask, true),
    {
        self.bits = self.bits | mask;
    }

    /// Switches the flags of `mask` off.
    pub fn remove(&mut self, mask: u8)
        ensures
            *final(self) == old(self).with(mask, false),
    {
        self.bits = self.bits & !mask;
    }
}

/// After a reset, interrupt disable and the unused bit are set and every
/// other flag is clear.
pub proof fn lemma_reset_flags()
    by (bit_vector)
    ensures
        0x24u8 & 0x04 == 0x04,
        0x24u8 & 0x20 == 0x20,
        0x24u8 & 0x01 != 0x01,
        0x24u8 & 0x02 != 0x02,
        0x24u8 & 0x08 != 0x08,
        0x24u8 & 0x10 != 0x10,
        0x24u8 & 0x40 != 0x40,
        0x24u8 & 0x80 != 0x80,
{
}

} // verus!

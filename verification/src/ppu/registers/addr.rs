//! The address register of the picture unit, behind 0x2006: two byte
//! writes, high byte first, compose a 14-bit address.

use crate::bits::{lemma_word, word};
use vstd::prelude::*;

verus! {

/// Number of addresses the picture unit decodes.
pub const ADDRESS_SPACE: u16 = 0x4000;

/// The address that the data port reaches, and which half of it the next
/// write replaces.
pub struct PPUADDR {
    /// High byte, then low byte.
    pub value: (u8, u8),
    /// The next write goes to the high byte.
    pub write_latch: bool,
}

impl PPUADDR {
    /// The address held.
    pub open spec fn address(&self) -> u16 {
        word(self.value.1, self.value.0)
    }

    /// The address is one the picture unit decodes.
    pub open spec fn masked(&self) -> bool {
        self.address() < ADDRESS_SPACE
    }

    /// The register holding `addr`, with the latch as given.
    pub open spec fn holding(addr: u16, write_latch: bool) -> PPUADDR {
        PPUADDR { value: ((addr / 256) as u8, (addr % 256) as u8), write_latch }
    }

    /// The address after a byte write: the byte replaces the half that the
    /// latch points at, and the result is folded into the 14 bits.
    pub open spec fn updated_address(&self, data: u8) -> u16 {
        if self.write_latch {
            (word(self.value.1, data) % ADDRESS_SPACE) as u16
        } else {
            (word(data, self.value.0) % ADDRESS_SPACE) as u16
        }
    }

    /// The address after an access of the data port.
    pub open spec fn incremented_address(&self, inc: u8) -> u16 {
        ((self.address() + inc) % (ADDRESS_SPACE as int)) as u16
    }

    /// Address zero, expecting the high byte.
    pub fn new() -> (r: Self)
        ensures
            r == Self::holding(0, true),
    {
        PPUADDR { value: (0, 0), write_latch: true }
    }

    /// Replaces the address held; the latch stays.
    pub fn set(&mut self, data: u16)
        ensures
            *final(self) == Self::holding(data, old(self).write_latch),
            final(self).address() == data,
    {
        proof {
            lemma_word(0, 0, data);
        }
        self.value.0 = (data >> 8) as u8;
        self.value.1 = (data & 0xff) as u8;
    }

    /// Writes one byte: the high byte if the latch says so, else the low
    /// byte. The address is folded into 14 bits and the latch flips.
    pub fn update(&mut self, data: u8)
        ensures
            *final(self) == Self::holding(old(self).updated_address(data), !old(self).write_latch),
            final(self).address() == old(self).updated_address(data),
            final(self).masked(),
    {
        if self.write_latch {
            self.value.0 = data;
        } else {
            self.value.1 = data;
        }
        self.fold();
        self.write_latch = !self.write_latch;
    }

    /// Adds `inc` to the address and folds it into 14 bits.
    pub fn increment(&mut self, inc: u8)
        ensures
            *final(self) == Self::holding(
                old(self).incremented_address(inc),
                old(self).write_latch,
            ),
            final(self).address() == old(self).incremented_address(inc),
            final(self).masked(),
    {
        let lo = self.value.1;
        self.value.1 = self.value.1.wrapping_add(inc);
        if lo > self.value.1 {
            self.value.0 = self.value.0.wrapping_add(1);
        }
        self.fold();
    }

    /// Folds the address into 14 bits where it has left them.
    fn fold(&mut self)
        ensures
            *final(self) == Self::holding(
                (old(self).address() % ADDRESS_SPACE) as u16,
                old(self).write_latch,
            ),
            final(self).address() == old(self).address() % ADDRESS_SPACE,
    {
        let raw = self.get();
        proof {
            lemma_fold(raw);
        }
        if raw > 0x3fff {
            self.set(raw & 0x3fff);
        }
    }

    /// The next write goes to the high byte again.
    pub fn reset_write_latch(&mut self)
        ensures
            *final(self) == (PPUADDR { write_latch: true, ..*old(self) }),
    {
        self.write_latch = true;
    }

    /// The address held.
    pub fn get(&self) -> (r: u16)
        ensures
            r == self.address(),
    {
        proof {
            lemma_word(self.value.1, self.value.0, 0);
        }
        ((self.value.0 as u16) << 8) | (self.value.1 as u16)
    }
}

proof fn lemma_fold(raw: u16)
    by (bit_vector)
    ensures
        raw & 0x3fff == raw % 0x4000,
{
}

} // verus!

//! The standard controller behind 0x4016: a strobe bit and a cursor that
//! hands out the buttons one bit per read.

use crate::bits::{has_bits, with_bits};
use vstd::prelude::*;

verus! {

/// The eight buttons as a bit mask.
#[derive(Clone, Copy, Debug, PartialEq, Eq, Structural)]
pub struct JoypadButton {
    pub bits: u8,
}

impl JoypadButton {
    pub const RIGHT: u8 = 0b1000_0000;

    pub const LEFT: u8 = 0b0100_0000;

    pub const DOWN: u8 = 0b0010_0000;

    pub const UP: u8 = 0b0001_0000;

    pub const START: u8 = 0b0000_1000;

    pub const SELECT: u8 = 0b0000_0100;

    pub const BUTTON_B: u8 = 0b0000_0010;

    pub const BUTTON_A: u8 = 0b0000_0001;

    /// Every button of `mask` is down.
    pub open spec fn has(&self, mask: u8) -> bool {
        has_bits(self.bits, mask)
    }

    /// The buttons with those of `mask` pressed or released.
    pub open spec fn with(&self, mask: u8, value: bool) -> JoypadButton {
        JoypadButton { bits: with_bits(self.bits, mask, value) }
    }

    /// The buttons given by `bits`; every bit is a button, so none is
    /// dropped.
    pub fn from_bits_truncate(bits: u8) -> (r: Self)
        ensures
            r.bits == bits,
    {
        JoypadButton { bits }
    }

    pub fn bits(&self) -> (r: u8)
        ensures
            r == self.bits,
    {
        self.bits
    }

    pub fn contains(&self, mask: u8) -> (r: bool)
        ensures
            r == self.has(mask),
    {
        self.bits & mask == mask
    }

    /// Presses or releases the buttons of `mask`.
    pub fn set(&mut self, mask: u8, value: bool)
        ensures
            *final(self) == old(self).with(mask, value),
    {
        if value {
            self.bits = self.bits | mask;
        } else {
            self.bits = self.bits & !mask;
        }
    }
}

/// Number of buttons, and the position of the cursor once all were read.
pub const BUTTONS: u8 = 8;

/// The controller: which buttons are down, and which one the next read
/// reports.
#[derive(Clone, Copy)]
pub struct Joypad {
    pub strobe: bool,
    /// The button that the next read reports: 0 for A, then B, Select,
    /// Start, Up, Down, Left, Right.
    pub button_index: u8,
    pub button_status: JoypadButton,
}

impl Joypad {
    /// The state after a write: bit 0 is the strobe, and while it is high
    /// the cursor is held at the first button.
    pub open spec fn written(self, data: u8) -> Joypad {
        let strobe = data % 2 == 1;
        Joypad { strobe, button_index: if strobe { 0 } else { self.button_index }, ..self }
    }

    /// What a read returns, and the state after it.
    ///
    /// Once all eight buttons were read, a read returns 1. Before that it
    /// returns the bit of the button under the cursor, and moves the cursor
    /// on unless the strobe is high.
    pub open spec fn read_result(self) -> (u8, Joypad) {
        if self.button_index >= BUTTONS {
            (1, self)
        } else {
            (
                (self.button_status.bits >> self.button_index) & 1,
                Joypad {
                    button_index: if self.strobe {
                        self.button_index
                    } else {
                        (self.button_index + 1) as u8
                    },
                    ..self
                },
            )
        }
    }

    /// No button down, strobe low, cursor at the first button.
    pub fn new() -> (r: Self)
        ensures
            r == (Joypad { strobe: false, button_index: 0, button_status: JoypadButton { bits: 0 } }),
    {
        Joypad { strobe: false, button_index: 0, button_status: JoypadButton::from_bits_truncate(0) }
    }

    /// Takes a write of 0x4016.
    pub fn write(&mut self, data: u8)
        ensures
            *final(self) == old(self).written(data),
    {
        proof {
            lemma_strobe_bit(data);
        }
        self.strobe = data & 1 == 1;
        if self.strobe {
            self.button_index = 0;
        }
    }

    /// Answers a read of 0x4016.
    pub fn read(&mut self) -> (data: u8)
        ensures
            (data, *final(self)) == old(self).read_result(),
    {
        if self.button_index > 7 {
            return 1;
        }
        proof {
            lemma_button_bit(self.button_status.bits, self.button_index);
        }
        let response = (self.button_status.bits() & (1u8 << self.button_index))
            >> self.button_index;
        if !self.strobe && self.button_index <= 7 {
            self.button_index += 1;
        }
        response
    }
}

proof fn lemma_strobe_bit(data: u8)
    by (bit_vector)
    ensures
        (data & 1 == 1) == (data % 2 == 1),
{
}

proof fn lemma_button_bit(bits: u8, index: u8)
    by (bit_vector)
    requires
        index < 8,
    ensures
        (bits & (1u8 << index)) >> index == (bits >> index) & 1,
{
}

} // verus!

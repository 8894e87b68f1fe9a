//! How an instruction finds its operand.

use crate::bits::lemma_word;
use crate::cpu::model::{page_cross, CpuState};
use crate::cpu::{Mem, CPU};
use vstd::prelude::*;

verus! {

#[derive(Clone, Copy, Debug, PartialEq, Eq, Structural)]
#[allow(non_camel_case_types)]
pub enum AddressingMode {
    /// The operand is the byte behind the opcode.
    Immediate,
    /// The byte behind the opcode is the address, in the zero page.
    ZeroPage,
    /// As `ZeroPage`, plus X, staying in the zero page.
    ZeroPage_X,
    /// As `ZeroPage`, plus Y, staying in the zero page.
    ZeroPage_Y,
    /// The word behind the opcode is the address.
    Absolute,
    /// As `Absolute`, plus X.
    Absolute_X,
    /// As `Absolute`, plus Y.
    Absolute_Y,
    /// The word behind the opcode points at the address.
    Indirect,
    /// The byte behind the opcode, plus X, points at the address, from
    /// inside the zero page.
    Indirect_X,
    /// The byte behind the opcode points, from inside the zero page, at a
    /// word; the address is that word plus Y.
    Indirect_Y,
    /// There is no operand in memory.
    NoneAddressing,
}

impl CPU {
    /// The address of the operand of the instruction under way, and whether
    /// finding it crossed a page.
    pub fn get_operand_address(&mut self, mode: &AddressingMode) -> (r: (u16, bool))
        requires
            old(self).wf(),
        ensures
            (r.0, r.1, final(self)@) == old(self)@.operand_address(*mode),
            final(self).wf(),
    {
        match mode {
            AddressingMode::Immediate => (self.program_counter, false),
            _ => self.get_absolute_address(mode, self.program_counter),
        }
    }

    /// Two addresses lie in different pages of 256 bytes.
    pub fn page_cross(a: u16, b: u16) -> (r: bool)
        ensures
            r == page_cross(a, b),
    {
        proof {
            lemma_word(0, 0, a);
            lemma_word(0, 0, b);
        }
        (a & 0xff00) != (b & 0xff00)
    }

    /// The zero-page address behind `addr`, moved on by `index`.
    fn zero_page_address(&mut self, addr: u16, index: u8) -> (r: (u16, bool))
        requires
            old(self).wf(),
        ensures
            (r.0, r.1, final(self)@) == old(self)@.zero_page_address(addr, index),
            final(self).wf(),
    {
        let base = self.mem_read(addr);
        (base.wrapping_add(index) as u16, false)
    }

    /// The address in the word behind `addr`, moved on by `index`.
    fn indexed_address(&mut self, addr: u16, index: u8) -> (r: (u16, bool))
        requires
            old(self).wf(),
        ensures
            (r.0, r.1, final(self)@) == old(self)@.indexed_address(addr, index),
            final(self).wf(),
    {
        let base = self.mem_read_u16(addr);
        let res = base.wrapping_add(index as u16);
        (res, CPU::page_cross(base, res))
    }

    /// The address that the zero-page pointer behind `addr`, moved on by X,
    /// points at.
    fn indirect_x_address(&mut self, addr: u16) -> (r: (u16, bool))
        requires
            old(self).wf(),
        ensures
            (r.0, r.1, final(self)@) == old(self)@.indirect_x_address(addr),
            final(self).wf(),
    {
        let base = self.mem_read(addr);
        let ptr: u8 = base.wrapping_add(self.register_x);
        let lo = self.mem_read(ptr as u16);
        let hi = self.mem_read(ptr.wrapping_add(1) as u16);
        proof {
            lemma_word(lo, hi, 0);
        }
        ((hi as u16) << 8 | (lo as u16), false)
    }

    /// The address that the zero-page pointer behind `addr` points at, moved
    /// on by Y.
    fn indirect_y_address(&mut self, addr: u16) -> (r: (u16, bool))
        requires
            old(self).wf(),
        ensures
            (r.0, r.1, final(self)@) == old(self)@.indirect_y_address(addr),
            final(self).wf(),
    {
        let base = self.mem_read(addr);
        let lo = self.mem_read(base as u16);
        let hi = self.mem_read(base.wrapping_add(1) as u16);
        proof {
            lemma_word(lo, hi, 0);
        }
        let deref_base = (hi as u16) << 8 | (lo as u16);
        let deref = deref_base.wrapping_add(self.register_y as u16);
        (deref, CPU::page_cross(deref, deref_base))
    }

    /// The address that `mode` yields for an operand whose bytes start at
    /// `addr`, and whether finding it crossed a page.
    pub fn get_absolute_address(&mut self, mode: &AddressingMode, addr: u16) -> (r: (u16, bool))
        requires
            old(self).wf(),
        ensures
            (r.0, r.1, final(self)@) == old(self)@.absolute_address(*mode, addr),
            final(self).wf(),
    {
        reveal(CpuState::absolute_address);
        match mode {
            AddressingMode::ZeroPage => self.zero_page_address(addr, 0),
            AddressingMode::Absolute => self.indexed_address(addr, 0),
            AddressingMode::ZeroPage_X => self.zero_page_address(addr, self.register_x),
            AddressingMode::ZeroPage_Y => self.zero_page_address(addr, self.register_y),
            AddressingMode::Absolute_X => self.indexed_address(addr, self.register_x),
            AddressingMode::Absolute_Y => self.indexed_address(addr, self.register_y),
            AddressingMode::Indirect_X => self.indirect_x_address(addr),
            AddressingMode::Indirect_Y => self.indirect_y_address(addr),
            _ => (0, false),
        }
    }
}

} // verus!

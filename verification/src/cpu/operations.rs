//! The operations of the instruction set, and what each makes of the
//! processor.

use crate::bits::{lemma_rotates, lemma_shifts, lemma_word};
use crate::cpu::addressing::AddressingMode;
use crate::cpu::flags::CPUFlags;
use crate::cpu::model::CpuState;
use crate::cpu::{Mem, CPU};
use vstd::prelude::*;

verus! {

/// The 56 documented operations and those undocumented ones that programs
/// use.
#[derive(Clone, Copy, Debug, PartialEq, Eq, Structural)]
#[allow(clippy::upper_case_acronyms)]
pub enum Operation {
    ADC,
    AND,
    ASL,
    BCC,
    BCS,
    BEQ,
    BIT,
    BMI,
    BNE,
    BPL,
    BRK,
    BVC,
    BVS,
    CLC,
    CLD,
    CLI,
    CLV,
    CMP,
    CPX,
    CPY,
    DEC,
    DEX,
    DEY,
    EOR,
    INC,
    INX,
    INY,
    JMP,
    JSR,
    LDA,
    LDX,
    LDY,
    LSR,
    NOP,
    ORA,
    PHA,
    PHP,
    PLA,
    PLP,
    ROL,
    ROR,
    RTI,
    RTS,
    SBC,
    SEC,
    SED,
    SEI,
    STA,
    STX,
    STY,
    TAX,
    TAY,
    TSX,
    TXA,
    TXS,
    TYA,
    LAX,
    SAX,
    DCP,
    ISB,
    SLO,
    RLA,
    SRE,
    RRA,
    ANC,
    ALR,
    ARR,
}

impl Operation {
    /// The three letters that assemblers know the operation by.
    pub open spec fn mnemonic(self) -> Seq<char> {
        match self {
            Operation::ADC => "ADC"@,
            Operation::AND => "AND"@,
            Operation::ASL => "ASL"@,
            Operation::BCC => "BCC"@,
            Operation::BCS => "BCS"@,
            Operation::BEQ => "BEQ"@,
            Operation::BIT => "BIT"@,
            Operation::BMI => "BMI"@,
            Operation::BNE => "BNE"@,
            Operation::BPL => "BPL"@,
            Operation::BRK => "BRK"@,
            Operation::BVC => "BVC"@,
            Operation::BVS => "BVS"@,
            Operation::CLC => "CLC"@,
            Operation::CLD => "CLD"@,
            Operation::CLI => "CLI"@,
            Operation::CLV => "CLV"@,
            Operation::CMP => "CMP"@,
            Operation::CPX => "CPX"@,
            Operation::CPY => "CPY"@,
            Operation::DEC => "DEC"@,
            Operation::DEX => "DEX"@,
            Operation::DEY => "DEY"@,
            Operation::EOR => "EOR"@,
            Operation::INC => "INC"@,
            Operation::INX => "INX"@,
            Operation::INY => "INY"@,
            Operation::JMP => "JMP"@,
            Operation::JSR => "JSR"@,
            Operation::LDA => "LDA"@,
            Operation::LDX => "LDX"@,
            Operation::LDY => "LDY"@,
            Operation::LSR => "LSR"@,
            Operation::NOP => "NOP"@,
            Operation::ORA => "ORA"@,
            Operation::PHA => "PHA"@,
            Operation::PHP => "PHP"@,
            Operation::PLA => "PLA"@,
            Operation::PLP => "PLP"@,
            Operation::ROL => "ROL"@,
            Operation::ROR => "ROR"@,
            Operation::RTI => "RTI"@,
            Operation::RTS => "RTS"@,
            Operation::SBC => "SBC"@,
            Operation::SEC => "SEC"@,
            Operation::SED => "SED"@,
            Operation::SEI => "SEI"@,
            Operation::STA => "STA"@,
            Operation::STX => "STX"@,
            Operation::STY => "STY"@,
            Operation::TAX => "TAX"@,
            Operation::TAY => "TAY"@,
            Operation::TSX => "TSX"@,
            Operation::TXA => "TXA"@,
            Operation::TXS => "TXS"@,
            Operation::TYA => "TYA"@,
            Operation::LAX => "LAX"@,
            Operation::SAX => "SAX"@,
            Operation::DCP => "DCP"@,
            Operation::ISB => "ISB"@,
            Operation::SLO => "SLO"@,
            Operation::RLA => "RLA"@,
            Operation::SRE => "SRE"@,
            Operation::RRA => "RRA"@,
            Operation::ANC => "ANC"@,
            Operation::ALR => "ALR"@,
            Operation::ARR => "ARR"@,
        }
    }

    /// The three letters that assemblers know the operation by.
    pub fn name(&self) -> (r: &'static str)
        ensures
            r@ == self.mnemonic(),
    {
        match self {
            Operation::ADC => "ADC",
            Operation::AND => "AND",
            Operation::ASL => "ASL",
            Operation::BCC => "BCC",
            Operation::BCS => "BCS",
            Operation::BEQ => "BEQ",
            Operation::BIT => "BIT",
            Operation::BMI => "BMI",
            Operation::BNE => "BNE",
            Operation::BPL => "BPL",
            Operation::BRK => "BRK",
            Operation::BVC => "BVC",
            Operation::BVS => "BVS",
            Operation::CLC => "CLC",
            Operation::CLD => "CLD",
            Operation::CLI => "CLI",
            Operation::CLV => "CLV",
            Operation::CMP => "CMP",
            Operation::CPX => "CPX",
            Operation::CPY => "CPY",
            Operation::DEC => "DEC",
            Operation::DEX => "DEX",
            Operation::DEY => "DEY",
            Operation::EOR => "EOR",
            Operation::INC => "INC",
            Operation::INX => "INX",
            Operation::INY => "INY",
            Operation::JMP => "JMP",
            Operation::JSR => "JSR",
            Operation::LDA => "LDA",
            Operation::LDX => "LDX",
            Operation::LDY => "LDY",
            Operation::LSR => "LSR",
            Operation::NOP => "NOP",
            Operation::ORA => "ORA",
            Operation::PHA => "PHA",
            Operation::PHP => "PHP",
            Operation::PLA => "PLA",
            Operation::PLP => "PLP",
            Operation::ROL => "ROL",
            Operation::ROR => "ROR",
            Operation::RTI => "RTI",
            Operation::RTS => "RTS",
            Operation::SBC => "SBC",
            Operation::SEC => "SEC",
            Operation::SED => "SED",
            Operation::SEI => "SEI",
            Operation::STA => "STA",
            Operation::STX => "STX",
            Operation::STY => "STY",
            Operation::TAX => "TAX",
            Operation::TAY => "TAY",
            Operation::TSX => "TSX",
            Operation::TXA => "TXA",
            Operation::TXS => "TXS",
            Operation::TYA => "TYA",
            Operation::LAX => "LAX",
            Operation::SAX => "SAX",
            Operation::DCP => "DCP",
            Operation::ISB => "ISB",
            Operation::SLO => "SLO",
            Operation::RLA => "RLA",
            Operation::SRE => "SRE",
            Operation::RRA => "RRA",
            Operation::ANC => "ANC",
            Operation::ALR => "ALR",
            Operation::ARR => "ARR",
        }
    }
}

impl CPU {
    /// ADC: add with carry. With `adc_page_cross`, a page crossed on the way
    /// to the operand costs a cycle.
    pub fn adc(&mut self, mode: &AddressingMode, adc_page_cross: bool)
        requires
            old(self).wf(),
        ensures
            final(self)@ == old(self)@.adc(*mode, adc_page_cross),
            final(self).wf(),
    {
        reveal(CpuState::adc);
        let (addr, page_cross) = self.get_operand_address(mode);
        let value = self.mem_read(addr);
        self.add_to_register_a(value);
        if page_cross && adc_page_cross {
            let _ = self.bus.tick(1);
        }
    }

    /// ANC: AND, then the carry copies the negative flag.
    pub fn anc(&mut self, mode: &AddressingMode)
        requires
            old(self).wf(),
        ensures
            final(self)@ == old(self)@.anc(*mode),
            final(self).wf(),
    {
        reveal(CpuState::anc);
        self.and(mode, false);
        self.status.set(CPUFlags::CARRY, self.status.contains(CPUFlags::NEGATIVE));
    }

    /// AND. With `and_page_cross`, a page crossed on the way to the operand
    /// costs a cycle.
    pub fn and(&mut self, mode: &AddressingMode, and_page_cross: bool)
        requires
            old(self).wf(),
        ensures
            final(self)@ == old(self)@.and(*mode, and_page_cross),
            final(self).wf(),
    {
        reveal(CpuState::and);
        let (addr, page_cross) = self.get_operand_address(mode);
        let value = self.mem_read(addr);
        self.set_register_a(self.register_a & value);
        if page_cross && and_page_cross {
            let _ = self.bus.tick(1);
        }
    }

    /// What a shift or rotate works on, and where it writes the result
    /// back: nowhere means the accumulator.
    fn shift_operand(&mut self, mode: &AddressingMode) -> (r: (u8, Option<u16>))
        requires
            old(self).wf(),
        ensures
            (r.0, r.1, final(self)@) == old(self)@.shift_operand(*mode),
            final(self).wf(),
    {
        match mode {
            AddressingMode::NoneAddressing => (self.register_a, None),
            _ => {
                let (addr, _) = self.get_operand_address(mode);
                let data = self.mem_read(addr);
                (data, Some(addr))
            },
        }
    }

    /// Puts the result of a shift or rotate back where the operand came
    /// from and sets zero and negative by it.
    fn shift_result(&mut self, target: Option<u16>, result: u8)
        requires
            old(self).wf(),
        ensures
            final(self)@ == old(self)@.shift_result(target, result),
            final(self).wf(),
    {
        match target {
            None => self.set_register_a(result),
            Some(addr) => {
                self.mem_write(addr, result);
                self.update_zero_and_negative_flags(result);
            },
        }
    }

    /// ASL: shift left, of the accumulator where `mode` names no operand.
    pub fn asl(&mut self, mode: &AddressingMode)
        requires
            old(self).wf(),
        ensures
            final(self)@ == old(self)@.asl(*mode),
            final(self).wf(),
    {
        reveal(CpuState::asl);
        let (data, target) = self.shift_operand(mode);
        proof {
            lemma_shifts(data);
        }
        self.status.set(CPUFlags::CARRY, data >> 7 == 1);
        self.shift_result(target, data << 1);
    }

    /// ARR: AND, then shift right.
    pub fn arr(&mut self, mode: &AddressingMode)
        requires
            old(self).wf(),
        ensures
            final(self)@ == old(self)@.arr(*mode),
            final(self).wf(),
    {
        reveal(CpuState::arr);
        self.and(mode, false);
        self.lsr(mode);
    }

    /// BIT: tests the bits of the operand against the accumulator.
    pub fn bit(&mut self, mode: &AddressingMode)
        requires
            old(self).wf(),
        ensures
            final(self)@ == old(self)@.bit(*mode),
            final(self).wf(),
    {
        reveal(CpuState::bit);
        let (addr, _) = self.get_operand_address(mode);
        let data = self.mem_read(addr);
        let res = self.register_a & data;
        proof {
            lemma_shifts(data);
        }
        self.status.set(CPUFlags::ZERO, res == 0);
        self.status.set(CPUFlags::NEGATIVE, data & 0b1000_0000 != 0);
        self.status.set(CPUFlags::OVERFLOW, data & 0b0100_0000 != 0);
    }

    /// Branches if `condition` holds.
    pub fn branch(&mut self, condition: bool)
        requires
            old(self).wf(),
        ensures
            final(self)@ == old(self)@.branch(condition),
            final(self).wf(),
    {
        reveal(CpuState::branch);
        if condition {
            let _ = self.bus.tick(1);
            let base = self.program_counter;
            let jump = self.mem_read(base);
            let jump_addr = if jump < 128 {
                base.wrapping_add(jump as u16)
            } else {
                base.wrapping_sub(256 - jump as u16)
            };
            self.program_counter = jump_addr;
            if CPU::page_cross(base.wrapping_add(1), jump_addr.wrapping_add(1)) {
                let _ = self.bus.tick(1);
            }
        }
    }

    /// The interrupt sequence of BRK. A step does not run it: there BRK
    /// ends the program.
    pub fn brk(&mut self)
        requires
            old(self).wf(),
        ensures
            final(self)@ == old(self)@.brk(),
            final(self).wf(),
    {
        reveal(CpuState::brk);
        self.stack_push_u16(self.program_counter.wrapping_add(1));
        self.php();
        self.sei();
        self.program_counter = 0xFEEE;
    }

    /// CMP, CPX, CPY: compares a register with the operand. With
    /// `cmp_page_cross`, a page crossed on the way to the operand costs a
    /// cycle.
    pub fn compare(&mut self, mode: &AddressingMode, compare_with: u8, cmp_page_cross: bool)
        requires
            old(self).wf(),
        ensures
            final(self)@ == old(self)@.compare(*mode, compare_with, cmp_page_cross),
            final(self).wf(),
    {
        reveal(CpuState::compare);
        let (addr, page_cross) = self.get_operand_address(mode);
        let data = self.mem_read(addr);
        self.status.set(CPUFlags::CARRY, data <= compare_with);
        self.update_zero_and_negative_flags(compare_with.wrapping_sub(data));
        if page_cross && cmp_page_cross {
            let _ = self.bus.tick(1);
        }
    }

    /// EOR: exclusive or. With `eor_page_cross`, a page crossed on the way
    /// to the operand costs a cycle.
    pub fn eor(&mut self, mode: &AddressingMode, eor_page_cross: bool)
        requires
            old(self).wf(),
        ensures
            final(self)@ == old(self)@.eor(*mode, eor_page_cross),
            final(self).wf(),
    {
        reveal(CpuState::eor);
        let (addr, page_cross) = self.get_operand_address(mode);
        let value = self.mem_read(addr);
        self.set_register_a(self.register_a ^ value);
        if page_cross && eor_page_cross {
            let _ = self.bus.tick(1);
        }
    }

    /// DEC: one less in memory.
    pub fn dec(&mut self, mode: &AddressingMode)
        requires
            old(self).wf(),
        ensures
            final(self)@ == old(self)@.dec(*mode),
            final(self).wf(),
    {
        reveal(CpuState::dec);
        let (addr, _) = self.get_operand_address(mode);
        let val = self.mem_read(addr).wrapping_sub(1);
        self.mem_write(addr, val);
        self.update_zero_and_negative_flags(val);
    }

    /// DEX.
    pub fn dex(&mut self)
        ensures
            final(self)@ == old(self)@.dex(),
            old(self).wf() ==> final(self).wf(),
    {
        reveal(CpuState::dex);
        self.register_x = self.register_x.wrapping_sub(1);
        self.update_zero_and_negative_flags(self.register_x)
    }

    /// DEY.
    pub fn dey(&mut self)
        ensures
            final(self)@ == old(self)@.dey(),
            old(self).wf() ==> final(self).wf(),
    {
        reveal(CpuState::dey);
        self.register_y = self.register_y.wrapping_sub(1);
        self.update_zero_and_negative_flags(self.register_y)
    }

    /// JMP. The program counter ends two bytes short of the target: the
    /// step adds them.
    pub fn jmp(&mut self, mode: &AddressingMode)
        requires
            old(self).wf(),
        ensures
            final(self)@ == old(self)@.jmp(*mode),
            final(self).wf(),
    {
        reveal(CpuState::jmp);
        let mem_address = self.mem_read_u16(self.program_counter);
        match mode {
            AddressingMode::Indirect => {
                proof {
                    lemma_word(0, 0, mem_address);
                }
                let indirect_ref = if mem_address & 0x00FF == 0x00FF {
                    let lo = self.mem_read(mem_address);
                    let hi = self.mem_read(mem_address & 0xFF00);
                    proof {
                        lemma_word(lo, hi, 0);
                    }
                    (hi as u16) << 8 | (lo as u16)
                } else {
                    self.mem_read_u16(mem_address)
                };
                self.program_counter = indirect_ref.wrapping_sub(2);
            },
            _ => self.program_counter = mem_address.wrapping_sub(2),
        }
    }

    /// JSR. The program counter ends two bytes short of the target: the
    /// step adds them.
    pub fn jsr(&mut self)
        requires
            old(self).wf(),
        ensures
            final(self)@ == old(self)@.jsr(),
            final(self).wf(),
    {
        reveal(CpuState::jsr);
        self.stack_push_u16(self.program_counter.wrapping_add(1));
        let target_address = self.mem_read_u16(self.program_counter);
        self.program_counter = target_address.wrapping_sub(2);
    }

    /// RTS.
    pub fn rts(&mut self)
        requires
            old(self).wf(),
        ensures
            final(self)@ == old(self)@.rts(),
            final(self).wf(),
    {
        reveal(CpuState::rts);
        self.program_counter = self.stack_pop_u16().wrapping_add(1);
    }

    /// RTI.
    pub fn rti(&mut self)
        requires
            old(self).wf(),
        ensures
            final(self)@ == old(self)@.rti(),
            final(self).wf(),
    {
        reveal(CpuState::rti);
        self.plp();
        self.program_counter = self.stack_pop_u16();
    }

    /// SAX: stores the bits that accumulator and X share.
    pub fn sax(&mut self, mode: &AddressingMode)
        requires
            old(self).wf(),
        ensures
            final(self)@ == old(self)@.sax(*mode),
            final(self).wf(),
    {
        reveal(CpuState::sax);
        let (addr, _) = self.get_operand_address(mode);
        self.mem_write(addr, self.register_x & self.register_a);
    }

    /// STA.
    pub fn sta(&mut self, mode: &AddressingMode)
        requires
            old(self).wf(),
        ensures
            final(self)@ == old(self)@.sta(*mode),
            final(self).wf(),
    {
        reveal(CpuState::sta);
        let (addr, _) = self.get_operand_address(mode);
        self.mem_write(addr, self.register_a);
    }

    /// STX.
    pub fn stx(&mut self, mode: &AddressingMode)
        requires
            old(self).wf(),
        ensures
            final(self)@ == old(self)@.stx(*mode),
            final(self).wf(),
    {
        reveal(CpuState::stx);
        let (addr, _) = self.get_operand_address(mode);
        self.mem_write(addr, self.register_x);
    }

    /// STY.
    pub fn sty(&mut self, mode: &AddressingMode)
        requires
            old(self).wf(),
        ensures
            final(self)@ == old(self)@.sty(*mode),
            final(self).wf(),
    {
        reveal(CpuState::sty);
        let (addr, _) = self.get_operand_address(mode);
        self.mem_write(addr, self.register_y);
    }

    /// LDA. A page crossed on the way to the operand costs a cycle.
    pub fn lda(&mut self, mode: &AddressingMode)
        requires
            old(self).wf(),
        ensures
            final(self)@ == old(self)@.lda(*mode),
            final(self).wf(),
    {
        reveal(CpuState::lda);
        let (addr, page_cross) = self.get_operand_address(mode);
        let val = self.mem_read(addr);
        self.register_a = val;
        self.update_zero_and_negative_flags(self.register_a);
        if page_cross {
            let _ = self.bus.tick(1);
        }
    }

    /// LDX. A page crossed on the way to the operand costs a cycle.
    pub fn ldx(&mut self, mode: &AddressingMode)
        requires
            old(self).wf(),
        ensures
            final(self)@ == old(self)@.ldx(*mode),
            final(self).wf(),
    {
        reveal(CpuState::ldx);
        let (addr, page_cross) = self.get_operand_address(mode);
        let val = self.mem_read(addr);
        self.register_x = val;
        self.update_zero_and_negative_flags(self.register_x);
        if page_cross {
            let _ = self.bus.tick(1);
        }
    }

    /// LDY. A page crossed on the way to the operand costs a cycle.
    pub fn ldy(&mut self, mode: &AddressingMode)
        requires
            old(self).wf(),
        ensures
            final(self)@ == old(self)@.ldy(*mode),
            final(self).wf(),
    {
        reveal(CpuState::ldy);
        let (addr, page_cross) = self.get_operand_address(mode);
        let val = self.mem_read(addr);
        self.register_y = val;
        self.update_zero_and_negative_flags(self.register_y);
        if page_cross {
            let _ = self.bus.tick(1);
        }
    }

    /// LSR: shift right, of the accumulator where `mode` names no operand.
    pub fn lsr(&mut self, mode: &AddressingMode)
        requires
            old(self).wf(),
        ensures
            final(self)@ == old(self)@.lsr(*mode),
            final(self).wf(),
    {
        reveal(CpuState::lsr);
        let (data, target) = self.shift_operand(mode);
        proof {
            lemma_shifts(data);
        }
        self.status.set(CPUFlags::CARRY, data & 1 == 1);
        self.shift_result(target, data >> 1);
    }

    /// NOP. A page crossed on the way to the operand costs a cycle.
    pub fn nop(&mut self, mode: &AddressingMode)
        requires
            old(self).wf(),
        ensures
            final(self)@ == old(self)@.nop(*mode),
            final(self).wf(),
    {
        reveal(CpuState::nop);
        let (_, page_cross) = self.get_operand_address(mode);
        if page_cross {
            let _ = self.bus.tick(1);
        }
    }

    /// ORA: inclusive or. With `ora_page_cross`, a page crossed on the way
    /// to the operand costs a cycle.
    pub fn ora(&mut self, mode: &AddressingMode, ora_page_cross: bool)
        requires
            old(self).wf(),
        ensures
            final(self)@ == old(self)@.ora(*mode, ora_page_cross),
            final(self).wf(),
    {
        reveal(CpuState::ora);
        let (addr, page_cross) = self.get_operand_address(mode);
        let val = self.mem_read(addr);
        self.set_register_a(self.register_a | val);
        if page_cross && ora_page_cross {
            let _ = self.bus.tick(1);
        }
    }

    /// PHP: pushes the flags with break and the unused bit set.
    pub fn php(&mut self)
        requires
            old(self).wf(),
        ensures
            final(self)@ == old(self)@.php(),
            final(self).wf(),
    {
        reveal(CpuState::php);
        self.stack_push(self.status.bits() | 0b0011_0000);
    }

    /// PLA.
    pub fn pla(&mut self)
        requires
            old(self).wf(),
        ensures
            final(self)@ == old(self)@.pla(),
            final(self).wf(),
    {
        reveal(CpuState::pla);
        let data = self.stack_pop();
        self.set_register_a(data);
    }

    /// PLP: pulls the flags, but for break and the unused bit.
    pub fn plp(&mut self)
        requires
            old(self).wf(),
        ensures
            final(self)@ == old(self)@.plp(),
            final(self).wf(),
    {
        reveal(CpuState::plp);
        let data = self.stack_pop();
        self.status = CPUFlags::from_bits_retain(
            (self.status.bits() & 0b0011_0000) | (data & 0b1100_1111),
        );
    }

    /// SBC: subtract with borrow. With `sbc_page_cross`, a page crossed on
    /// the way to the operand costs a cycle.
    pub fn sbc(&mut self, mode: &AddressingMode, sbc_page_cross: bool)
        requires
            old(self).wf(),
        ensures
            final(self)@ == old(self)@.sbc(*mode, sbc_page_cross),
            final(self).wf(),
    {
        reveal(CpuState::sbc);
        let (addr, page_cross) = self.get_operand_address(mode);
        let data = self.mem_read(addr);
        self.add_to_register_a(255 - data);
        if page_cross && sbc_page_cross {
            let _ = self.bus.tick(1);
        }
    }

    /// SEI.
    pub fn sei(&mut self)
        ensures
            final(self)@ == old(self)@.sei(),
            old(self).wf() ==> final(self).wf(),
    {
        reveal(CpuState::sei);
        self.status.insert(CPUFlags::INTERRUPT_DISABLE);
    }

    /// TAX.
    pub fn tax(&mut self)
        ensures
            final(self)@ == old(self)@.tax(),
            old(self).wf() ==> final(self).wf(),
    {
        reveal(CpuState::tax);
        self.register_x = self.register_a;
        self.update_zero_and_negative_flags(self.register_x);
    }

    /// TAY.
    pub fn tay(&mut self)
        ensures
            final(self)@ == old(self)@.tay(),
            old(self).wf() ==> final(self).wf(),
    {
        reveal(CpuState::tay);
        self.register_y = self.register_a;
        self.update_zero_and_negative_flags(self.register_y);
    }

    /// TSX.
    pub fn tsx(&mut self)
        ensures
            final(self)@ == old(self)@.tsx(),
            old(self).wf() ==> final(self).wf(),
    {
        reveal(CpuState::tsx);
        self.register_x = self.stack_pointer;
        self.update_zero_and_negative_flags(self.register_x);
    }

    /// TXA.
    pub fn txa(&mut self)
        ensures
            final(self)@ == old(self)@.txa(),
            old(self).wf() ==> final(self).wf(),
    {
        reveal(CpuState::txa);
        self.register_a = self.register_x;
        self.update_zero_and_negative_flags(self.register_a);
    }

    /// TYA.
    pub fn tya(&mut self)
        ensures
            final(self)@ == old(self)@.tya(),
            old(self).wf() ==> final(self).wf(),
    {
        reveal(CpuState::tya);
        self.register_a = self.register_y;
        self.update_zero_and_negative_flags(self.register_y);
    }

    /// INC: one more in memory.
    pub fn inc(&mut self, mode: &AddressingMode)
        requires
            old(self).wf(),
        ensures
            final(self)@ == old(self)@.inc(*mode),
            final(self).wf(),
    {
        reveal(CpuState::inc);
        let (addr, _) = self.get_operand_address(mode);
        let val = self.mem_read(addr);
        self.mem_write(addr, val.wrapping_add(1));
        self.update_zero_and_negative_flags(val.wrapping_add(1));
    }

    /// INX.
    pub fn inx(&mut self)
        ensures
            final(self)@ == old(self)@.inx(),
            old(self).wf() ==> final(self).wf(),
    {
        reveal(CpuState::inx);
        self.register_x = self.register_x.wrapping_add(1);
        self.update_zero_and_negative_flags(self.register_x);
    }

    /// INY.
    pub fn iny(&mut self)
        ensures
            final(self)@ == old(self)@.iny(),
            old(self).wf() ==> final(self).wf(),
    {
        reveal(CpuState::iny);
        self.register_y = self.register_y.wrapping_add(1);
        self.update_zero_and_negative_flags(self.register_y);
    }

    /// ROL: rotate left through the carry, of the accumulator where `mode`
    /// names no operand.
    pub fn rol(&mut self, mode: &AddressingMode)
        requires
            old(self).wf(),
        ensures
            final(self)@ == old(self)@.rol(*mode),
            final(self).wf(),
    {
        reveal(CpuState::rol);
        let (mut data, target) = self.shift_operand(mode);
        proof {
            lemma_shifts(data);
            lemma_rotates(data);
        }
        let old_carry = self.status.contains(CPUFlags::CARRY);
        self.status.set(CPUFlags::CARRY, data >> 7 == 1);
        if old_carry {
            data = (data << 1) | 1;
        } else {
            data = data << 1;
        }
        self.shift_result(target, data);
    }

    /// ROR: rotate right through the carry, of the accumulator where `mode`
    /// names no operand.
    pub fn ror(&mut self, mode: &AddressingMode)
        requires
            old(self).wf(),
        ensures
            final(self)@ == old(self)@.ror(*mode),
            final(self).wf(),
    {
        reveal(CpuState::ror);
        let (mut data, target) = self.shift_operand(mode);
        proof {
            lemma_shifts(data);
            lemma_rotates(data);
        }
        let old_carry = self.status.contains(CPUFlags::CARRY);
        self.status.set(CPUFlags::CARRY, data & 1 == 1);
        if old_carry {
            data = (data >> 1) | 0b1000_0000;
        } else {
            data = data >> 1;
        }
        self.shift_result(target, data);
    }
}

} // verus!

//! The dispatch from an operation to what runs it, by families of
//! operations.

use crate::cpu::addressing::AddressingMode;
use crate::cpu::flags::CPUFlags;
use crate::cpu::model::CpuState;
use crate::cpu::operations::Operation;
use crate::cpu::CPU;
use vstd::prelude::*;

verus! {

/// A load or a store.
pub open spec fn is_memory(op: Operation) -> bool {
    ||| op == Operation::LDA
    ||| op == Operation::LDX
    ||| op == Operation::LDY
    ||| op == Operation::STA
    ||| op == Operation::STX
    ||| op == Operation::STY
    ||| op == Operation::LAX
    ||| op == Operation::SAX
}

/// A transfer between registers, or a step up or down of an index
/// register.
pub open spec fn is_register(op: Operation) -> bool {
    ||| op == Operation::TAX
    ||| op == Operation::TAY
    ||| op == Operation::TSX
    ||| op == Operation::TXA
    ||| op == Operation::TXS
    ||| op == Operation::TYA
    ||| op == Operation::INX
    ||| op == Operation::INY
    ||| op == Operation::DEX
    ||| op == Operation::DEY
}

/// An addition, a comparison, a logical operation, or a step up or down in
/// memory.
pub open spec fn is_arithmetic(op: Operation) -> bool {
    ||| op == Operation::ADC
    ||| op == Operation::SBC
    ||| op == Operation::AND
    ||| op == Operation::EOR
    ||| op == Operation::ORA
    ||| op == Operation::BIT
    ||| op == Operation::CMP
    ||| op == Operation::CPX
    ||| op == Operation::CPY
    ||| op == Operation::INC
    ||| op == Operation::DEC
}

/// A shift or a rotate, alone or behind an AND.
pub open spec fn is_shift(op: Operation) -> bool {
    ||| op == Operation::ASL
    ||| op == Operation::LSR
    ||| op == Operation::ROL
    ||| op == Operation::ROR
    ||| op == Operation::ANC
    ||| op == Operation::ALR
    ||| op == Operation::ARR
}

/// An undocumented operation that changes memory and then computes with
/// the result.
pub open spec fn is_combined(op: Operation) -> bool {
    ||| op == Operation::SLO
    ||| op == Operation::RLA
    ||| op == Operation::SRE
    ||| op == Operation::RRA
    ||| op == Operation::DCP
    ||| op == Operation::ISB
}

/// A branch.
pub open spec fn is_branch(op: Operation) -> bool {
    ||| op == Operation::BCC
    ||| op == Operation::BCS
    ||| op == Operation::BEQ
    ||| op == Operation::BMI
    ||| op == Operation::BNE
    ||| op == Operation::BPL
    ||| op == Operation::BVC
    ||| op == Operation::BVS
}

/// The setting or clearing of a flag.
pub open spec fn is_flag(op: Operation) -> bool {
    ||| op == Operation::CLC
    ||| op == Operation::CLD
    ||| op == Operation::CLI
    ||| op == Operation::CLV
    ||| op == Operation::SEC
    ||| op == Operation::SED
    ||| op == Operation::SEI
}

/// A jump, a return, a stack operation, BRK or NOP.
pub open spec fn is_control(op: Operation) -> bool {
    ||| op == Operation::JMP
    ||| op == Operation::JSR
    ||| op == Operation::RTS
    ||| op == Operation::RTI
    ||| op == Operation::BRK
    ||| op == Operation::PHA
    ||| op == Operation::PHP
    ||| op == Operation::PLA
    ||| op == Operation::PLP
    ||| op == Operation::NOP
}

impl CPU {
    /// Runs an operation on the operand that `mode` names.
    pub fn execute(&mut self, op: Operation, mode: &AddressingMode)
        requires
            old(self).wf(),
        ensures
            final(self)@ == old(self)@.execute(op, *mode),
            final(self).wf(),
    {
        match op {
            Operation::LDA | Operation::LDX | Operation::LDY | Operation::STA | Operation::STX |
            Operation::STY | Operation::LAX | Operation::SAX => {
                self.execute_memory(op, mode)
            },
            Operation::TAX | Operation::TAY | Operation::TSX | Operation::TXA | Operation::TXS |
            Operation::TYA | Operation::INX | Operation::INY | Operation::DEX | Operation::DEY => {
                self.execute_register(op, mode)
            },
            Operation::ADC | Operation::SBC | Operation::AND | Operation::EOR | Operation::ORA |
            Operation::BIT | Operation::CMP | Operation::CPX | Operation::CPY | Operation::INC |
            Operation::DEC => {
                self.execute_arithmetic(op, mode)
            },
            Operation::ASL | Operation::LSR | Operation::ROL | Operation::ROR | Operation::ANC |
            Operation::ALR | Operation::ARR => {
                self.execute_shift(op, mode)
            },
            Operation::SLO | Operation::RLA | Operation::SRE | Operation::RRA | Operation::DCP |
            Operation::ISB => {
                self.execute_combined(op, mode)
            },
            Operation::BCC | Operation::BCS | Operation::BEQ | Operation::BMI | Operation::BNE |
            Operation::BPL | Operation::BVC | Operation::BVS => {
                self.execute_branch(op, mode)
            },
            Operation::CLC | Operation::CLD | Operation::CLI | Operation::CLV | Operation::SEC |
            Operation::SED | Operation::SEI => {
                self.execute_flag(op, mode)
            },
            Operation::JMP | Operation::JSR | Operation::RTS | Operation::RTI | Operation::BRK |
            Operation::PHA | Operation::PHP | Operation::PLA | Operation::PLP | Operation::NOP => {
                self.execute_control(op, mode)
            },
        }
    }

    /// Runs an operation that moves a byte between memory and a register.
    fn execute_memory(&mut self, op: Operation, mode: &AddressingMode)
        requires
            old(self).wf(),
            is_memory(op),
        ensures
            final(self)@ == old(self)@.execute(op, *mode),
            final(self).wf(),
    {
        reveal(CpuState::execute);
        match op {
            Operation::LDA => self.lda(mode),
            Operation::LDX => self.ldx(mode),
            Operation::LDY => self.ldy(mode),
            Operation::STA => self.sta(mode),
            Operation::STX => self.stx(mode),
            Operation::STY => self.sty(mode),
            Operation::LAX => {
                self.lda(mode);
                self.tax();
            },
            Operation::SAX => self.sax(mode),
            _ => {},
        }
    }

    /// Runs an operation that works on the registers alone.
    fn execute_register(&mut self, op: Operation, mode: &AddressingMode)
        requires
            old(self).wf(),
            is_register(op),
        ensures
            final(self)@ == old(self)@.execute(op, *mode),
            final(self).wf(),
    {
        reveal(CpuState::execute);
        match op {
            Operation::TAX => self.tax(),
            Operation::TAY => self.tay(),
            Operation::TSX => self.tsx(),
            Operation::TXA => self.txa(),
            Operation::TXS => self.stack_pointer = self.register_x,
            Operation::TYA => self.tya(),
            Operation::INX => self.inx(),
            Operation::INY => self.iny(),
            Operation::DEX => self.dex(),
            Operation::DEY => self.dey(),
            _ => {},
        }
    }

    /// Runs an operation that computes with the accumulator, compares, or counts in memory.
    fn execute_arithmetic(&mut self, op: Operation, mode: &AddressingMode)
        requires
            old(self).wf(),
            is_arithmetic(op),
        ensures
            final(self)@ == old(self)@.execute(op, *mode),
            final(self).wf(),
    {
        reveal(CpuState::execute);
        match op {
            Operation::ADC => self.adc(mode, true),
            Operation::SBC => self.sbc(mode, true),
            Operation::AND => self.and(mode, true),
            Operation::EOR => self.eor(mode, true),
            Operation::ORA => self.ora(mode, true),
            Operation::BIT => self.bit(mode),
            Operation::CMP => self.compare(mode, self.register_a, true),
            Operation::CPX => self.compare(mode, self.register_x, true),
            Operation::CPY => self.compare(mode, self.register_y, true),
            Operation::INC => self.inc(mode),
            Operation::DEC => self.dec(mode),
            _ => {},
        }
    }

    /// Runs an operation that shifts or rotates.
    fn execute_shift(&mut self, op: Operation, mode: &AddressingMode)
        requires
            old(self).wf(),
            is_shift(op),
        ensures
            final(self)@ == old(self)@.execute(op, *mode),
            final(self).wf(),
    {
        reveal(CpuState::execute);
        match op {
            Operation::ASL => self.asl(mode),
            Operation::LSR => self.lsr(mode),
            Operation::ROL => self.rol(mode),
            Operation::ROR => self.ror(mode),
            Operation::ANC => self.anc(mode),
            Operation::ALR => {
                self.and(mode, false);
                self.lsr(mode);
            },
            Operation::ARR => self.arr(mode),
            _ => {},
        }
    }

    /// Runs an operation that changes memory and then computes with the result.
    fn execute_combined(&mut self, op: Operation, mode: &AddressingMode)
        requires
            old(self).wf(),
            is_combined(op),
        ensures
            final(self)@ == old(self)@.execute(op, *mode),
            final(self).wf(),
    {
        reveal(CpuState::execute);
        match op {
            Operation::SLO => {
                self.asl(mode);
                self.ora(mode, false);
            },
            Operation::RLA => {
                self.rol(mode);
                self.and(mode, false);
            },
            Operation::SRE => {
                self.lsr(mode);
                self.eor(mode, false);
            },
            Operation::RRA => {
                self.ror(mode);
                self.adc(mode, false);
            },
            Operation::DCP => {
                self.dec(mode);
                self.compare(mode, self.register_a, false);
            },
            Operation::ISB => {
                self.inc(mode);
                self.sbc(mode, false);
            },
            _ => {},
        }
    }

    /// Runs an operation that branches.
    fn execute_branch(&mut self, op: Operation, mode: &AddressingMode)
        requires
            old(self).wf(),
            is_branch(op),
        ensures
            final(self)@ == old(self)@.execute(op, *mode),
            final(self).wf(),
    {
        reveal(CpuState::execute);
        match op {
            Operation::BCC => self.branch(!self.status.contains(CPUFlags::CARRY)),
            Operation::BCS => self.branch(self.status.contains(CPUFlags::CARRY)),
            Operation::BEQ => self.branch(self.status.contains(CPUFlags::ZERO)),
            Operation::BMI => self.branch(self.status.contains(CPUFlags::NEGATIVE)),
            Operation::BNE => self.branch(!self.status.contains(CPUFlags::ZERO)),
            Operation::BPL => self.branch(!self.status.contains(CPUFlags::NEGATIVE)),
            Operation::BVC => self.branch(!self.status.contains(CPUFlags::OVERFLOW)),
            Operation::BVS => self.branch(self.status.contains(CPUFlags::OVERFLOW)),
            _ => {},
        }
    }

    /// Runs an operation that switches a flag.
    fn execute_flag(&mut self, op: Operation, mode: &AddressingMode)
        requires
            old(self).wf(),
            is_flag(op),
        ensures
            final(self)@ == old(self)@.execute(op, *mode),
            final(self).wf(),
    {
        reveal(CpuState::execute);
        match op {
            Operation::CLC => self.status.remove(CPUFlags::CARRY),
            Operation::CLD => self.status.remove(CPUFlags::DECIMAL_MODE),
            Operation::CLI => self.status.remove(CPUFlags::INTERRUPT_DISABLE),
            Operation::CLV => self.status.remove(CPUFlags::OVERFLOW),
            Operation::SEC => self.status.insert(CPUFlags::CARRY),
            Operation::SED => self.status.insert(CPUFlags::DECIMAL_MODE),
            Operation::SEI => self.sei(),
            _ => {},
        }
    }

    /// Runs an operation that jumps, returns, pushes or pulls.
    fn execute_control(&mut self, op: Operation, mode: &AddressingMode)
        requires
            old(self).wf(),
            is_control(op),
        ensures
            final(self)@ == old(self)@.execute(op, *mode),
            final(self).wf(),
    {
        reveal(CpuState::execute);
        match op {
            Operation::JMP => self.jmp(mode),
            Operation::JSR => self.jsr(),
            Operation::RTS => self.rts(),
            Operation::RTI => self.rti(),
            Operation::BRK => {},
            Operation::PHA => self.stack_push(self.register_a),
            Operation::PHP => self.php(),
            Operation::PLA => self.pla(),
            Operation::PLP => self.plp(),
            Operation::NOP => self.nop(mode),
            _ => {},
        }
    }
}

} // verus!

//! What the processor is, as a mathematical value, and what each operation,
//! an interrupt, a reset and a whole instruction make of it.

use crate::bits::{hi_byte, lo_byte, signed, word, wrap16, wrap8};
use crate::bus::model::{BusFault, BusState};
use crate::cpu::addressing::AddressingMode;
use crate::cpu::flags::CPUFlags;
use crate::cpu::opcodes::opcode_table;
use crate::cpu::operations::Operation;
use vstd::prelude::*;

verus! {

/// First address of the stack page.
pub const STACK: u16 = 0x0100;

/// The stack pointer after a reset.
pub const STACK_RESET: u8 = 0xfd;

/// Where the address of the interrupt routine stands.
pub const NMI_VECTOR: u16 = 0xfffa;

/// Where the address of the first instruction stands.
pub const RESET_VECTOR: u16 = 0xfffc;

/// Where `load` puts a program.
pub const LOAD_ADDRESS: u16 = 0x0600;

/// Cycles that pass while an interrupt is entered.
pub const NMI_CYCLES: usize = 2;

/// How a step of the processor ended.
#[derive(Clone, Copy, Debug, PartialEq, Eq, Structural)]
pub enum StepResult {
    /// An instruction ran.
    Completed,
    /// A pending interrupt was entered in place of an instruction.
    Interrupted,
    /// The instruction was BRK, which ends the program.
    Halted,
    /// The byte under the program counter is no instruction.
    UndefinedOpcode(u8),
    /// The bus holds a note of a faulty access.
    IllegalAccess(BusFault),
}

impl StepResult {
    /// After this result the program does not go on.
    pub open spec fn stops(self) -> bool {
        !(self is Completed || self is Interrupted)
    }
}

/// Two addresses lie in different pages of 256 bytes.
pub open spec fn page_cross(a: u16, b: u16) -> bool {
    a / 256 != b / 256
}

/// The carry out of an addition of two bytes and a carry.
pub open spec fn carry_out(a: u8, m: u8, carry: int) -> bool {
    a + m + carry > 0xff
}

/// The addition of two bytes and a carry, read as two's-complement
/// numbers, leaves the range of a byte.
pub open spec fn signed_overflow(a: u8, m: u8, carry: int) -> bool {
    let sum = signed(a) + signed(m) + carry;
    sum < -128 || sum > 127
}

/// The state of the processor.
pub struct CpuState {
    pub register_a: u8,
    pub register_x: u8,
    pub register_y: u8,
    pub status: CPUFlags,
    pub program_counter: u16,
    pub stack_pointer: u8,
    pub bus: BusState,
}

impl CpuState {
    /// The bus is well-formed.
    pub open spec fn wf(self) -> bool {
        self.bus.wf()
    }

    /// What a read returns, and the state after it.
    pub open spec fn read(self, addr: u16) -> (u8, CpuState) {
        let (data, bus) = self.bus.read(addr);
        (data, CpuState { bus, ..self })
    }

    /// What a read of a little-endian word returns, and the state after it.
    pub open spec fn read_u16(self, addr: u16) -> (u16, CpuState) {
        let (data, bus) = self.bus.read_u16(addr);
        (data, CpuState { bus, ..self })
    }

    /// The state after a write.
    pub open spec fn write(self, addr: u16, data: u8) -> CpuState {
        CpuState { bus: self.bus.write(addr, data), ..self }
    }

    /// The state after `cycles` cycles.
    pub open spec fn tick(self, cycles: usize) -> CpuState {
        CpuState { bus: self.bus.tick(cycles).0, ..self }
    }

    /// The state after `cycles` cycles, if `when` holds.
    pub open spec fn tick_if(self, when: bool, cycles: usize) -> CpuState {
        if when {
            self.tick(cycles)
        } else {
            self
        }
    }

    /// The state with the flags of `mask` switched on or off.
    pub open spec fn flag(self, mask: u8, value: bool) -> CpuState {
        CpuState { status: self.status.with(mask, value), ..self }
    }

    /// The state with the zero and negative flags taken from a result.
    pub open spec fn with_zn(self, result: u8) -> CpuState {
        self.flag(CPUFlags::ZERO, result == 0).flag(CPUFlags::NEGATIVE, result >= 128)
    }

    /// The state with `value` in the accumulator and the flags to match.
    pub open spec fn with_a(self, value: u8) -> CpuState {
        CpuState { register_a: value, ..self }.with_zn(value)
    }

    /// The state with `value` in X and the flags to match.
    pub open spec fn with_x(self, value: u8) -> CpuState {
        CpuState { register_x: value, ..self }.with_zn(value)
    }

    /// The state with `value` in Y and the flags to match.
    pub open spec fn with_y(self, value: u8) -> CpuState {
        CpuState { register_y: value, ..self }.with_zn(value)
    }

    /// The state with the program counter at `addr`.
    pub open spec fn at(self, addr: u16) -> CpuState {
        CpuState { program_counter: addr, ..self }
    }

    /// The state after a byte was pushed: it goes where the stack pointer
    /// points, inside the stack page, and the pointer moves down, wrapping.
    pub open spec fn push(self, data: u8) -> CpuState {
        CpuState { stack_pointer: wrap8(self.stack_pointer - 1), ..self }.write(
            (STACK + self.stack_pointer) as u16,
            data,
        )
    }

    /// The state after a word was pushed, high byte first.
    pub open spec fn push_u16(self, data: u16) -> CpuState {
        self.push(hi_byte(data)).push(lo_byte(data))
    }

    /// The byte that a pop returns, and the state after it: the pointer
    /// moves up, wrapping, and the byte is read where it then points.
    pub open spec fn pop(self) -> (u8, CpuState) {
        let sp = wrap8(self.stack_pointer + 1);
        CpuState { stack_pointer: sp, ..self }.read((STACK + sp) as u16)
    }

    /// The word that a pop returns, low byte first, and the state after it.
    pub open spec fn pop_u16(self) -> (u16, CpuState) {
        let (lo, s) = self.pop();
        let (hi, s) = s.pop();
        (word(lo, hi), s)
    }

    /// The zero-page address behind `addr`, moved on by `index` inside the
    /// zero page.
    pub open spec fn zero_page_address(self, addr: u16, index: u8) -> (u16, bool, CpuState) {
        let (base, s) = self.read(addr);
        (wrap8(base + index) as u16, false, s)
    }

    /// The address in the word behind `addr`, moved on by `index`; a page
    /// is crossed where that changes the high byte.
    pub open spec fn indexed_address(self, addr: u16, index: u8) -> (u16, bool, CpuState) {
        let (base, s) = self.read_u16(addr);
        let res = wrap16(base + index);
        (res, page_cross(base, res), s)
    }

    /// The address that the zero-page pointer behind `addr`, moved on by X,
    /// points at. Pointer and index stay inside the zero page.
    pub open spec fn indirect_x_address(self, addr: u16) -> (u16, bool, CpuState) {
        let (base, s) = self.read(addr);
        let ptr = wrap8(base + self.register_x);
        let (lo, s) = s.read(ptr as u16);
        let (hi, s) = s.read(wrap8(ptr + 1) as u16);
        (word(lo, hi), false, s)
    }

    /// The address that the zero-page pointer behind `addr` points at, moved
    /// on by Y; a page is crossed where that changes the high byte.
    pub open spec fn indirect_y_address(self, addr: u16) -> (u16, bool, CpuState) {
        let (base, s) = self.read(addr);
        let (lo, s) = s.read(base as u16);
        let (hi, s) = s.read(wrap8(base + 1) as u16);
        let deref_base = word(lo, hi);
        let deref = wrap16(deref_base + self.register_y);
        (deref, page_cross(deref, deref_base), s)
    }

    /// The address that `mode` yields for an operand whose bytes start at
    /// `addr`, whether finding it crossed a page, and the state after the
    /// reads that found it.
    ///
    /// The zero-page modes wrap inside the zero page, also when they fetch a
    /// pointer. The indexed absolute modes and the indirect mode indexed by Y
    /// cross a page where the index changes the high byte. The other modes
    /// have no address here and yield 0.
    #[verifier::opaque]
    pub open spec fn absolute_address(self, mode: AddressingMode, addr: u16) -> (
        u16,
        bool,
        CpuState,
    ) {
        match mode {
            AddressingMode::ZeroPage => self.zero_page_address(addr, 0),
            AddressingMode::Absolute => self.indexed_address(addr, 0),
            AddressingMode::ZeroPage_X => self.zero_page_address(addr, self.register_x),
            AddressingMode::ZeroPage_Y => self.zero_page_address(addr, self.register_y),
            AddressingMode::Absolute_X => self.indexed_address(addr, self.register_x),
            AddressingMode::Absolute_Y => self.indexed_address(addr, self.register_y),
            AddressingMode::Indirect_X => self.indirect_x_address(addr),
            AddressingMode::Indirect_Y => self.indirect_y_address(addr),
            _ => (0, false, self),
        }
    }

    /// The address of the operand of the instruction under way: for an
    /// immediate operand the program counter itself, else what
    /// [`CpuState::absolute_address`] finds from there.
    pub open spec fn operand_address(self, mode: AddressingMode) -> (u16, bool, CpuState) {
        match mode {
            AddressingMode::Immediate => (self.program_counter, false, self),
            _ => self.absolute_address(mode, self.program_counter),
        }
    }

    /// The operand, whether finding it crossed a page, and the state after
    /// the reads.
    pub open spec fn operand(self, mode: AddressingMode) -> (u8, bool, CpuState) {
        let (addr, crossed, s) = self.operand_address(mode);
        let (data, s) = s.read(addr);
        (data, crossed, s)
    }

    /// The state after `m` and the carry were added to the accumulator.
    ///
    /// The carry flag tells that the sum left the range of an unsigned byte,
    /// the overflow flag that it left the range of a signed one; zero and
    /// negative follow the byte that is kept.
    pub open spec fn add_to_a(self, m: u8) -> CpuState {
        let a = self.register_a;
        let c = self.status.carry();
        self.flag(CPUFlags::CARRY, carry_out(a, m, c)).flag(
            CPUFlags::OVERFLOW,
            signed_overflow(a, m, c),
        ).with_a(wrap8(a + m + c))
    }

    /// ADC: add with carry.
    #[verifier::opaque]
    pub open spec fn adc(self, mode: AddressingMode, timed: bool) -> CpuState {
        let (m, crossed, s) = self.operand(mode);
        s.add_to_a(m).tick_if(crossed && timed, 1)
    }

    /// SBC: subtract with borrow, which is adding the one's complement.
    #[verifier::opaque]
    pub open spec fn sbc(self, mode: AddressingMode, timed: bool) -> CpuState {
        let (m, crossed, s) = self.operand(mode);
        s.add_to_a((255 - m) as u8).tick_if(crossed && timed, 1)
    }

    /// AND.
    #[verifier::opaque]
    pub open spec fn and(self, mode: AddressingMode, timed: bool) -> CpuState {
        let (m, crossed, s) = self.operand(mode);
        s.with_a(s.register_a & m).tick_if(crossed && timed, 1)
    }

    /// EOR: exclusive or.
    #[verifier::opaque]
    pub open spec fn eor(self, mode: AddressingMode, timed: bool) -> CpuState {
        let (m, crossed, s) = self.operand(mode);
        s.with_a(s.register_a ^ m).tick_if(crossed && timed, 1)
    }

    /// ORA: inclusive or.
    #[verifier::opaque]
    pub open spec fn ora(self, mode: AddressingMode, timed: bool) -> CpuState {
        let (m, crossed, s) = self.operand(mode);
        s.with_a(s.register_a | m).tick_if(crossed && timed, 1)
    }

    /// ANC: AND, then the carry copies the negative flag.
    #[verifier::opaque]
    pub open spec fn anc(self, mode: AddressingMode) -> CpuState {
        let s = self.and(mode, false);
        s.flag(CPUFlags::CARRY, s.status.has(CPUFlags::NEGATIVE))
    }

    /// What a shift or rotate works on, where it writes the result back
    /// (nowhere means the accumulator), and the state after the reads.
    pub open spec fn shift_operand(self, mode: AddressingMode) -> (u8, Option<u16>, CpuState) {
        match mode {
            AddressingMode::NoneAddressing => (self.register_a, None, self),
            _ => {
                let (addr, crossed, s) = self.operand_address(mode);
                let (data, s) = s.read(addr);
                (data, Some(addr), s)
            },
        }
    }

    /// The state after the result of a shift or rotate went back to where
    /// the operand came from, with the flags to match.
    pub open spec fn shift_result(self, target: Option<u16>, result: u8) -> CpuState {
        match target {
            None => self.with_a(result),
            Some(addr) => self.write(addr, result).with_zn(result),
        }
    }

    /// ASL: shift left; bit 7 goes to the carry and the lower bits move up.
    #[verifier::opaque]
    pub open spec fn asl(self, mode: AddressingMode) -> CpuState {
        let (data, target, s) = self.shift_operand(mode);
        s.flag(CPUFlags::CARRY, data >= 128).shift_result(target, ((data % 128) * 2) as u8)
    }

    /// LSR: shift right; bit 0 goes to the carry.
    #[verifier::opaque]
    pub open spec fn lsr(self, mode: AddressingMode) -> CpuState {
        let (data, target, s) = self.shift_operand(mode);
        s.flag(CPUFlags::CARRY, data % 2 == 1).shift_result(target, data / 2)
    }

    /// ROL: rotate left through the carry; bit 7 goes to the carry, the
    /// lower bits move up and the old carry comes in below.
    #[verifier::opaque]
    pub open spec fn rol(self, mode: AddressingMode) -> CpuState {
        let (data, target, s) = self.shift_operand(mode);
        s.flag(CPUFlags::CARRY, data >= 128).shift_result(
            target,
            ((data % 128) * 2 + s.status.carry()) as u8,
        )
    }

    /// ROR: rotate right through the carry.
    #[verifier::opaque]
    pub open spec fn ror(self, mode: AddressingMode) -> CpuState {
        let (data, target, s) = self.shift_operand(mode);
        s.flag(CPUFlags::CARRY, data % 2 == 1).shift_result(
            target,
            (data / 2 + 128 * s.status.carry()) as u8,
        )
    }

    /// ARR: AND, then shift right.
    #[verifier::opaque]
    pub open spec fn arr(self, mode: AddressingMode) -> CpuState {
        self.and(mode, false).lsr(mode)
    }

    /// BIT: zero tells whether accumulator and operand share a bit;
    /// negative and overflow copy bits 7 and 6 of the operand.
    #[verifier::opaque]
    pub open spec fn bit(self, mode: AddressingMode) -> CpuState {
        let (data, crossed, s) = self.operand(mode);
        s.flag(CPUFlags::ZERO, s.register_a & data == 0).flag(
            CPUFlags::NEGATIVE,
            data >= 128,
        ).flag(CPUFlags::OVERFLOW, (data / 64) % 2 == 1)
    }

    /// A branch. One that is taken costs a cycle, reads its offset as a
    /// signed byte and adds it to the program counter; it costs another
    /// cycle where the instruction that it leads to lies in another page
    /// than the one that follows the branch.
    #[verifier::opaque]
    pub open spec fn branch(self, condition: bool) -> CpuState {
        if condition {
            let base = self.program_counter;
            let (jump, s) = self.tick(1).read(base);
            let target = wrap16(base + signed(jump));
            s.at(target).tick_if(page_cross(wrap16(base + 1), wrap16(target + 1)), 1)
        } else {
            self
        }
    }

    /// The interrupt sequence of BRK: the address behind the instruction
    /// and the flags go to the stack, interrupts are disabled.
    #[verifier::opaque]
    pub open spec fn brk(self) -> CpuState {
        self.push_u16(wrap16(self.program_counter + 1)).php().sei().at(0xFEEE)
    }

    /// CMP, CPX, CPY: the carry tells that the register is not below the
    /// operand; zero and negative follow the difference.
    #[verifier::opaque]
    pub open spec fn compare(self, mode: AddressingMode, compare_with: u8, timed: bool) -> CpuState {
        let (data, crossed, s) = self.operand(mode);
        s.flag(CPUFlags::CARRY, data <= compare_with).with_zn(wrap8(compare_with - data)).tick_if(
            crossed && timed,
            1,
        )
    }

    /// DEC: one less in memory.
    #[verifier::opaque]
    pub open spec fn dec(self, mode: AddressingMode) -> CpuState {
        let (addr, crossed, s) = self.operand_address(mode);
        let (data, s) = s.read(addr);
        s.write(addr, wrap8(data - 1)).with_zn(wrap8(data - 1))
    }

    /// INC: one more in memory.
    #[verifier::opaque]
    pub open spec fn inc(self, mode: AddressingMode) -> CpuState {
        let (addr, crossed, s) = self.operand_address(mode);
        let (data, s) = s.read(addr);
        s.write(addr, wrap8(data + 1)).with_zn(wrap8(data + 1))
    }

    /// DEX.
    #[verifier::opaque]
    pub open spec fn dex(self) -> CpuState {
        self.with_x(wrap8(self.register_x - 1))
    }

    /// DEY.
    #[verifier::opaque]
    pub open spec fn dey(self) -> CpuState {
        self.with_y(wrap8(self.register_y - 1))
    }

    /// INX.
    #[verifier::opaque]
    pub open spec fn inx(self) -> CpuState {
        self.with_x(wrap8(self.register_x + 1))
    }

    /// INY.
    #[verifier::opaque]
    pub open spec fn iny(self) -> CpuState {
        self.with_y(wrap8(self.register_y + 1))
    }

    /// Where a jump leads: to the word behind the opcode, or to the word
    /// that this word points at. In the latter case a pointer in the last
    /// byte of a page takes its high byte from the first byte of the same
    /// page, as the hardware does.
    pub open spec fn jump_target(self, mode: AddressingMode) -> (u16, CpuState) {
        let (mem_address, s) = self.read_u16(self.program_counter);
        match mode {
            AddressingMode::Indirect => {
                if mem_address % 256 == 255 {
                    let (lo, s) = s.read(mem_address);
                    let (hi, s) = s.read((mem_address - 255) as u16);
                    (word(lo, hi), s)
                } else {
                    s.read_u16(mem_address)
                }
            },
            _ => (mem_address, s),
        }
    }

    /// JMP. The program counter ends two bytes short of the target: the
    /// step adds them, as it does for every instruction of three bytes.
    #[verifier::opaque]
    pub open spec fn jmp(self, mode: AddressingMode) -> CpuState {
        let (target, s) = self.jump_target(mode);
        s.at(wrap16(target - 2))
    }

    /// JSR: the address of the last byte of the instruction goes to the
    /// stack. The program counter ends two bytes short of the target, as for
    /// JMP.
    #[verifier::opaque]
    pub open spec fn jsr(self) -> CpuState {
        let s = self.push_u16(wrap16(self.program_counter + 1));
        let (target, s) = s.read_u16(s.program_counter);
        s.at(wrap16(target - 2))
    }

    /// RTS: back to the byte behind the address on the stack.
    #[verifier::opaque]
    pub open spec fn rts(self) -> CpuState {
        let (addr, s) = self.pop_u16();
        s.at(wrap16(addr + 1))
    }

    /// RTI: flags and address come back from the stack.
    #[verifier::opaque]
    pub open spec fn rti(self) -> CpuState {
        let (addr, s) = self.plp().pop_u16();
        s.at(addr)
    }

    /// SAX: stores the bits that accumulator and X share.
    #[verifier::opaque]
    pub open spec fn sax(self, mode: AddressingMode) -> CpuState {
        let (addr, crossed, s) = self.operand_address(mode);
        s.write(addr, s.register_x & s.register_a)
    }

    /// STA.
    #[verifier::opaque]
    pub open spec fn sta(self, mode: AddressingMode) -> CpuState {
        let (addr, crossed, s) = self.operand_address(mode);
        s.write(addr, s.register_a)
    }

    /// STX.
    #[verifier::opaque]
    pub open spec fn stx(self, mode: AddressingMode) -> CpuState {
        let (addr, crossed, s) = self.operand_address(mode);
        s.write(addr, s.register_x)
    }

    /// STY.
    #[verifier::opaque]
    pub open spec fn sty(self, mode: AddressingMode) -> CpuState {
        let (addr, crossed, s) = self.operand_address(mode);
        s.write(addr, s.register_y)
    }

    /// LDA.
    #[verifier::opaque]
    pub open spec fn lda(self, mode: AddressingMode) -> CpuState {
        let (data, crossed, s) = self.operand(mode);
        s.with_a(data).tick_if(crossed, 1)
    }

    /// LDX.
    #[verifier::opaque]
    pub open spec fn ldx(self, mode: AddressingMode) -> CpuState {
        let (data, crossed, s) = self.operand(mode);
        s.with_x(data).tick_if(crossed, 1)
    }

    /// LDY.
    #[verifier::opaque]
    pub open spec fn ldy(self, mode: AddressingMode) -> CpuState {
        let (data, crossed, s) = self.operand(mode);
        s.with_y(data).tick_if(crossed, 1)
    }

    /// NOP: finds its operand, if it has one, and leaves it alone.
    #[verifier::opaque]
    pub open spec fn nop(self, mode: AddressingMode) -> CpuState {
        let (addr, crossed, s) = self.operand_address(mode);
        s.tick_if(crossed, 1)
    }

    /// PHP: pushes the flags with break and the unused bit set.
    #[verifier::opaque]
    pub open spec fn php(self) -> CpuState {
        self.push(self.status.bits | 0b0011_0000)
    }

    /// PLA.
    #[verifier::opaque]
    pub open spec fn pla(self) -> CpuState {
        let (data, s) = self.pop();
        s.with_a(data)
    }

    /// PLP: pulls the flags, but for break and the unused bit, which stay.
    #[verifier::opaque]
    pub open spec fn plp(self) -> CpuState {
        let (data, s) = self.pop();
        CpuState {
            status: CPUFlags { bits: (s.status.bits & 0b0011_0000) | (data & 0b1100_1111) },
            ..s
        }
    }

    /// SEI.
    #[verifier::opaque]
    pub open spec fn sei(self) -> CpuState {
        self.flag(CPUFlags::INTERRUPT_DISABLE, true)
    }

    /// TAX.
    #[verifier::opaque]
    pub open spec fn tax(self) -> CpuState {
        self.with_x(self.register_a)
    }

    /// TAY.
    #[verifier::opaque]
    pub open spec fn tay(self) -> CpuState {
        self.with_y(self.register_a)
    }

    /// TSX.
    #[verifier::opaque]
    pub open spec fn tsx(self) -> CpuState {
        self.with_x(self.stack_pointer)
    }

    /// TXA.
    #[verifier::opaque]
    pub open spec fn txa(self) -> CpuState {
        self.with_a(self.register_x)
    }

    /// TYA.
    #[verifier::opaque]
    pub open spec fn tya(self) -> CpuState {
        self.with_a(self.register_y)
    }

    /// The state after an operation ran on the operand that `mode` names.
    ///
    /// The undocumented operations are two documented ones, one after the
    /// other, with the flags of both. BRK changes nothing here: the step
    /// reports it.
    #[verifier::opaque]
    pub open spec fn execute(self, op: Operation, mode: AddressingMode) -> CpuState {
        match op {
            Operation::ADC => self.adc(mode, true),
            Operation::ALR => self.and(mode, false).lsr(mode),
            Operation::ANC => self.anc(mode),
            Operation::AND => self.and(mode, true),
            Operation::ARR => self.arr(mode),
            Operation::ASL => self.asl(mode),
            Operation::BCC => self.branch(!self.status.has(CPUFlags::CARRY)),
            Operation::BCS => self.branch(self.status.has(CPUFlags::CARRY)),
            Operation::BEQ => self.branch(self.status.has(CPUFlags::ZERO)),
            Operation::BIT => self.bit(mode),
            Operation::BMI => self.branch(self.status.has(CPUFlags::NEGATIVE)),
            Operation::BNE => self.branch(!self.status.has(CPUFlags::ZERO)),
            Operation::BPL => self.branch(!self.status.has(CPUFlags::NEGATIVE)),
            Operation::BRK => self,
            Operation::BVC => self.branch(!self.status.has(CPUFlags::OVERFLOW)),
            Operation::BVS => self.branch(self.status.has(CPUFlags::OVERFLOW)),
            Operation::CLC => self.flag(CPUFlags::CARRY, false),
            Operation::CLD => self.flag(CPUFlags::DECIMAL_MODE, false),
            Operation::CLI => self.flag(CPUFlags::INTERRUPT_DISABLE, false),
            Operation::CLV => self.flag(CPUFlags::OVERFLOW, false),
            Operation::CMP => self.compare(mode, self.register_a, true),
            Operation::CPX => self.compare(mode, self.register_x, true),
            Operation::CPY => self.compare(mode, self.register_y, true),
            Operation::DCP => {
                let s = self.dec(mode);
                s.compare(mode, s.register_a, false)
            },
            Operation::DEC => self.dec(mode),
            Operation::DEX => self.dex(),
            Operation::DEY => self.dey(),
            Operation::EOR => self.eor(mode, true),
            Operation::INC => self.inc(mode),
            Operation::INX => self.inx(),
            Operation::INY => self.iny(),
            Operation::ISB => self.inc(mode).sbc(mode, false),
            Operation::JMP => self.jmp(mode),
            Operation::JSR => self.jsr(),
            Operation::LAX => self.lda(mode).tax(),
            Operation::LDA => self.lda(mode),
            Operation::LDX => self.ldx(mode),
            Operation::LDY => self.ldy(mode),
            Operation::LSR => self.lsr(mode),
            Operation::NOP => self.nop(mode),
            Operation::ORA => self.ora(mode, true),
            Operation::PHA => self.push(self.register_a),
            Operation::PHP => self.php(),
            Operation::PLA => self.pla(),
            Operation::PLP => self.plp(),
            Operation::ROL => self.rol(mode),
            Operation::ROR => self.ror(mode),
            Operation::RLA => self.rol(mode).and(mode, false),
            Operation::RRA => self.ror(mode).adc(mode, false),
            Operation::RTI => self.rti(),
            Operation::RTS => self.rts(),
            Operation::SAX => self.sax(mode),
            Operation::SBC => self.sbc(mode, true),
            Operation::SEC => self.flag(CPUFlags::CARRY, true),
            Operation::SED => self.flag(CPUFlags::DECIMAL_MODE, true),
            Operation::SEI => self.sei(),
            Operation::SLO => self.asl(mode).ora(mode, false),
            Operation::SRE => self.lsr(mode).eor(mode, false),
            Operation::STA => self.sta(mode),
            Operation::STX => self.stx(mode),
            Operation::STY => self.sty(mode),
            Operation::TAX => self.tax(),
            Operation::TAY => self.tay(),
            Operation::TSX => self.tsx(),
            Operation::TXA => self.txa(),
            Operation::TXS => CpuState { stack_pointer: self.register_x, ..self },
            Operation::TYA => self.tya(),
        }
    }

    /// The state after a reset: registers zero, the stack pointer at its
    /// start, interrupt disable and the unused flag set, and the program
    /// counter read from the reset vector.
    pub open spec fn reset(self) -> CpuState {
        let (start, s) = CpuState {
            register_a: 0,
            register_x: 0,
            register_y: 0,
            stack_pointer: STACK_RESET,
            status: CPUFlags { bits: CPUFlags::RESET },
            ..self
        }.read_u16(RESET_VECTOR);
        s.at(start)
    }

    /// The state after the interrupt of the picture unit was entered: the
    /// program counter and the flags, break clear and the unused bit set, go
    /// to the stack, interrupts are disabled, two cycles pass, and the
    /// program counter is read from the interrupt vector.
    pub open spec fn interrupt_nmi(self) -> CpuState {
        let s = self.push_u16(self.program_counter);
        let s = s.push(
            s.status.with(CPUFlags::BREAK, false).with(CPUFlags::BREAK2, true).bits,
        );
        let s = s.flag(CPUFlags::INTERRUPT_DISABLE, true).tick(NMI_CYCLES);
        let (handler, s) = s.read_u16(NMI_VECTOR);
        s.at(handler)
    }

    /// What a step reports at its end: a fault that the bus has noted, else
    /// the end of the program if the instruction was BRK.
    pub open spec fn outcome(self, op: Operation) -> StepResult {
        match self.bus.fault {
            Some(fault) => StepResult::IllegalAccess(fault),
            None => if op == Operation::BRK {
                StepResult::Halted
            } else {
                StepResult::Completed
            },
        }
    }

    /// The state after one step, and how the step ended.
    ///
    /// A pending interrupt is taken and entered; no instruction runs. Else
    /// the byte under the program counter is read. If the table has no row
    /// for it, the step ends there. Else the program counter moves behind the
    /// opcode, the operation runs, the program counter moves on by the rest
    /// of the instruction's length, and the cycles of the row pass.
    #[verifier::opaque]
    pub open spec fn step(self) -> (CpuState, StepResult) {
        let (nmi, bus) = self.bus.pull_nmi_status();
        let s = CpuState { bus, ..self };
        if nmi is Some {
            (s.interrupt_nmi(), StepResult::Interrupted)
        } else {
            let (code, s) = s.read(s.program_counter);
            match opcode_table(code) {
                None => (s, StepResult::UndefinedOpcode(code)),
                Some(entry) => {
                    let s = s.at(wrap16(s.program_counter + 1)).execute(
                        entry.op,
                        entry.addressing_mode,
                    );
                    let s = s.at(wrap16(s.program_counter + entry.bytes - 1)).tick(entry.cycles);
                    (s, s.outcome(entry.op))
                },
            }
        }
    }

    /// The state after the program ran until a step stopped it, but for at
    /// most `limit` steps, and how that step ended; nothing where no step
    /// stopped it.
    pub open spec fn run(self, limit: nat) -> (CpuState, Option<StepResult>)
        decreases limit,
    {
        if limit == 0 {
            (self, None)
        } else {
            let (s, result) = self.step();
            if result.stops() {
                (s, Some(result))
            } else {
                s.run((limit - 1) as nat)
            }
        }
    }

    /// The state after the first `count` bytes of a program were written,
    /// one after the other, from 0x0600 on.
    pub open spec fn load(self, program: Seq<u8>, count: nat) -> CpuState
        decreases count,
    {
        if count == 0 {
            self
        } else {
            self.load(program, (count - 1) as nat).write(
                (LOAD_ADDRESS + count - 1) as u16,
                program[count - 1],
            )
        }
    }
}

} // verus!

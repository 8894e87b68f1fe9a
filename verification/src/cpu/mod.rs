//! The processor: a 6502 without decimal mode. It owns the bus, runs one
//! instruction per step and looks for a pending interrupt before each.

pub mod addressing;
pub mod arithmetic;
pub mod execute;
pub mod flags;
pub mod model;
pub mod opcodes;
pub mod timing;
pub mod trace;
pub mod operations;

pub use crate::cpu::addressing::AddressingMode;
pub use crate::cpu::flags::CPUFlags;
pub use crate::cpu::model::StepResult;
pub use crate::cpu::operations::Operation;

use crate::bits::{lemma_overflow_test, lemma_word};
use crate::bus::model::BusState;
use crate::bus::Bus;
use crate::cartridge::Cartridge;
use crate::cpu::arithmetic::lemma_signed_overflow;
use crate::cpu::flags::lemma_reset_flags;
use crate::cpu::model::{
    CpuState, LOAD_ADDRESS, NMI_CYCLES, NMI_VECTOR, RESET_VECTOR, STACK, STACK_RESET,
};
use crate::cpu::opcodes::lookup;
use vstd::prelude::*;

verus! {

/// The registers of the processor, and the bus that it owns.
pub struct CPU {
    pub register_a: u8,
    pub status: CPUFlags,
    pub register_x: u8,
    pub register_y: u8,
    pub program_counter: u16,
    pub stack_pointer: u8,
    pub bus: Bus,
}

impl View for CPU {
    type V = CpuState;

    open spec fn view(&self) -> CpuState {
        CpuState {
            register_a: self.register_a,
            register_x: self.register_x,
            register_y: self.register_y,
            status: self.status,
            program_counter: self.program_counter,
            stack_pointer: self.stack_pointer,
            bus: self.bus@,
        }
    }
}

/// Access to the memory map, a byte or a little-endian word at a time.
pub trait Mem {
    /// The bus that the accesses go to.
    spec fn memory(&self) -> BusState;

    /// Reads the byte at `addr`. Some addresses change on being read.
    fn mem_read(&mut self, addr: u16) -> (data: u8)
        requires
            old(self).memory().wf(),
        ensures
            (data, final(self).memory()) == old(self).memory().read(addr),
            final(self).memory().wf(),
    ;

    /// Writes the byte at `addr`.
    fn mem_write(&mut self, addr: u16, data: u8)
        requires
            old(self).memory().wf(),
        ensures
            final(self).memory() == old(self).memory().write(addr, data),
            final(self).memory().wf(),
    ;

    /// Reads the word at `pos`: low byte first, the high byte from the next
    /// address, which after 0xffff is 0.
    fn mem_read_u16(&mut self, pos: u16) -> (data: u16)
        requires
            old(self).memory().wf(),
        ensures
            (data, final(self).memory()) == old(self).memory().read_u16(pos),
            final(self).memory().wf(),
    {
        let lo = self.mem_read(pos);
        let hi = self.mem_read(pos.wrapping_add(1));
        proof {
            lemma_word(lo, hi, 0);
        }
        ((hi as u16) << 8) | (lo as u16)
    }

    /// Writes the word at `pos`: low byte first, the high byte at the next
    /// address, which after 0xffff is 0.
    fn mem_write_u16(&mut self, pos: u16, data: u16)
        requires
            old(self).memory().wf(),
        ensures
            final(self).memory() == old(self).memory().write_u16(pos, data),
            final(self).memory().wf(),
    {
        proof {
            lemma_word(0, 0, data);
        }
        let hi = (data >> 8) as u8;
        let lo = (data & 0xff) as u8;
        self.mem_write(pos, lo);
        self.mem_write(pos.wrapping_add(1), hi);
    }
}

impl Mem for CPU {
    open spec fn memory(&self) -> BusState {
        self.bus@
    }

    fn mem_read(&mut self, addr: u16) -> (data: u8)
        ensures
            (data, final(self)@) == old(self)@.read(addr),
    {
        self.bus.mem_read(addr)
    }

    fn mem_write(&mut self, addr: u16, data: u8)
        ensures
            final(self)@ == old(self)@.write(addr, data),
    {
        self.bus.mem_write(addr, data)
    }

    fn mem_read_u16(&mut self, pos: u16) -> (data: u16)
        ensures
            (data, final(self)@) == old(self)@.read_u16(pos),
    {
        self.bus.mem_read_u16(pos)
    }

    fn mem_write_u16(&mut self, pos: u16, data: u16)
        ensures
            final(self)@ == (CpuState { bus: old(self)@.bus.write_u16(pos, data), ..old(self)@ }),
    {
        self.bus.mem_write_u16(pos, data)
    }
}

impl CPU {
    /// The processor is in a state that its operations keep: the bus is
    /// well-formed.
    pub open spec fn wf(&self) -> bool {
        self@.wf()
    }

    /// Whether the processor is in a state that its operations keep.
    pub fn is_wf(&self) -> (ok: bool)
        ensures
            ok == self.wf(),
    {
        self.bus.is_wf()
    }

    /// A processor on a bus, before its reset.
    pub fn new(bus: Bus) -> (cpu: Self)
        ensures
            cpu@ == (CpuState {
                register_a: 0,
                register_x: 0,
                register_y: 0,
                status: CPUFlags { bits: CPUFlags::RESET },
                program_counter: 0,
                stack_pointer: STACK_RESET,
                bus: bus@,
            }),
            bus.wf() ==> cpu.wf(),
    {
        CPU {
            register_a: 0,
            register_x: 0,
            register_y: 0,
            bus,
            program_counter: 0,
            stack_pointer: STACK_RESET,
            status: CPUFlags::from_bits_truncate(CPUFlags::RESET),
        }
    }

    /// A processor on a bus with an empty cartridge in it.
    pub fn default() -> (cpu: Self)
        ensures
            cpu.wf(),
            cpu@.register_a == 0 && cpu@.register_x == 0 && cpu@.register_y == 0,
            cpu@.status.bits == CPUFlags::RESET,
            cpu@.program_counter == 0,
            cpu@.stack_pointer == STACK_RESET,
            cpu@.bus == BusState::power_on(
                crate::cartridge::zeros(0x8000),
                crate::cartridge::zeros(0x2000),
                crate::cartridge::Mirroring::Horizontal,
            ),
    {
        CPU::new(Bus::default(Cartridge::default()))
    }

    /// Resets the processor: registers zero, the stack pointer at 0xfd,
    /// interrupt disable and the unused flag set, and the program counter
    /// read from the reset vector at 0xfffc.
    pub fn reset(&mut self)
        requires
            old(self).wf(),
        ensures
            final(self)@ == old(self)@.reset(),
            final(self).wf(),
            final(self).register_a == 0 && final(self).register_x == 0 && final(self).register_y
                == 0,
            final(self).stack_pointer == STACK_RESET,
            final(self).status.bits == CPUFlags::RESET,
            final(self).status.has(CPUFlags::INTERRUPT_DISABLE),
            final(self).status.has(CPUFlags::BREAK2),
            final(self).program_counter == old(self)@.bus.read_u16(RESET_VECTOR).0,
    {
        proof {
            lemma_reset_flags();
        }
        self.register_a = 0;
        self.register_x = 0;
        self.register_y = 0;
        self.stack_pointer = STACK_RESET;
        self.status = CPUFlags::from_bits_truncate(CPUFlags::RESET);
        self.program_counter = self.mem_read_u16(RESET_VECTOR);
    }

    /// Writes a program into memory, byte after byte from 0x0600 on.
    pub fn load(&mut self, program: Vec<u8>)
        requires
            old(self).wf(),
            LOAD_ADDRESS + program@.len() <= 0x1_0000,
        ensures
            final(self)@ == old(self)@.load(program@, program@.len()),
            final(self).wf(),
    {
        let mut i: usize = 0;
        while i < program.len()
            invariant
                i <= program@.len(),
                LOAD_ADDRESS + program@.len() <= 0x1_0000,
                self.wf(),
                self@ == old(self)@.load(program@, i as nat),
            decreases program@.len() - i,
        {
            self.mem_write(LOAD_ADDRESS + i as u16, program[i]);
            i += 1;
        }
    }

    /// Loads a program, resets the processor and runs it until a step stops
    /// it, but for at most `limit` steps.
    pub fn load_and_run(&mut self, program: Vec<u8>, limit: usize) -> (result: Option<StepResult>)
        requires
            old(self).wf(),
            LOAD_ADDRESS + program@.len() <= 0x1_0000,
        ensures
            (final(self)@, result) == old(self)@.load(program@, program@.len()).reset().run(
                limit as nat,
            ),
            final(self).wf(),
    {
        self.load(program);
        self.reset();
        self.run(limit)
    }

    /// Pulls a byte from the stack.
    pub fn stack_pop(&mut self) -> (data: u8)
        requires
            old(self).wf(),
        ensures
            (data, final(self)@) == old(self)@.pop(),
            final(self).wf(),
    {
        self.stack_pointer = self.stack_pointer.wrapping_add(1);
        self.mem_read(STACK + self.stack_pointer as u16)
    }

    /// Pushes a byte onto the stack.
    pub fn stack_push(&mut self, data: u8)
        requires
            old(self).wf(),
        ensures
            final(self)@ == old(self)@.push(data),
            final(self).wf(),
    {
        self.mem_write(STACK + self.stack_pointer as u16, data);
        self.stack_pointer = self.stack_pointer.wrapping_sub(1)
    }

    /// Pushes a word onto the stack, high byte first.
    pub fn stack_push_u16(&mut self, data: u16)
        requires
            old(self).wf(),
        ensures
            final(self)@ == old(self)@.push_u16(data),
            final(self).wf(),
    {
        proof {
            lemma_word(0, 0, data);
        }
        let hi = (data >> 8) as u8;
        let lo = (data & 0xff) as u8;
        self.stack_push(hi);
        self.stack_push(lo);
    }

    /// Pulls a word from the stack, low byte first.
    pub fn stack_pop_u16(&mut self) -> (data: u16)
        requires
            old(self).wf(),
        ensures
            (data, final(self)@) == old(self)@.pop_u16(),
            final(self).wf(),
    {
        let lo = self.stack_pop();
        let hi = self.stack_pop();
        proof {
            lemma_word(lo, hi, 0);
        }
        (hi as u16) << 8 | (lo as u16)
    }

    /// Puts a value into the accumulator and sets zero and negative by it.
    pub fn set_register_a(&mut self, value: u8)
        ensures
            final(self)@ == old(self)@.with_a(value),
    {
        self.register_a = value;
        self.update_zero_and_negative_flags(self.register_a);
    }

    /// Adds a byte and the carry to the accumulator. Decimal mode is
    /// ignored.
    pub fn add_to_register_a(&mut self, data: u8)
        ensures
            final(self)@ == old(self)@.add_to_a(data),
    {
        let carry: u16 = if self.status.contains(CPUFlags::CARRY) {
            1
        } else {
            0
        };
        let sum = self.register_a as u16 + data as u16 + carry;
        proof {
            lemma_word(0, 0, sum);
        }
        let result = (sum & 0xff) as u8;
        proof {
            lemma_overflow_test(self.register_a, data, result);
            lemma_signed_overflow(self.register_a, data, carry as int);
        }
        self.status.set(CPUFlags::CARRY, sum > 0xff);
        self.status.set(
            CPUFlags::OVERFLOW,
            (data ^ result) & (result ^ self.register_a) & 0x80 != 0,
        );
        self.set_register_a(result);
    }

    /// Sets zero and negative by a result.
    pub fn update_zero_and_negative_flags(&mut self, result: u8)
        ensures
            final(self)@ == old(self)@.with_zn(result),
    {
        proof {
            crate::bits::lemma_shifts(result);
        }
        self.status.set(CPUFlags::ZERO, result == 0);
        self.status.set(CPUFlags::NEGATIVE, result & 0b1000_0000 != 0);
    }

    /// Runs until a step stops the program, but for at most `limit` steps,
    /// and says how that step ended; nothing where no step stopped it.
    pub fn run(&mut self, limit: usize) -> (result: Option<StepResult>)
        requires
            old(self).wf(),
        ensures
            (final(self)@, result) == old(self)@.run(limit as nat),
            final(self).wf(),
    {
        let mut remaining = limit;
        while remaining > 0
            invariant
                self.wf(),
                self@.run(remaining as nat) == old(self)@.run(limit as nat),
            decreases remaining,
        {
            let result = self.step();
            if Self::ends(result) {
                return Some(result);
            }
            remaining -= 1;
        }
        None
    }

    /// After this result the program does not go on.
    fn ends(result: StepResult) -> (r: bool)
        ensures
            r == result.stops(),
    {
        match result {
            StepResult::Completed => false,
            StepResult::Interrupted => false,
            _ => true,
        }
    }

    /// Enters the interrupt of the picture unit.
    fn interrupt_nmi(&mut self)
        requires
            old(self).wf(),
        ensures
            final(self)@ == old(self)@.interrupt_nmi(),
            final(self).wf(),
    {
        self.stack_push_u16(self.program_counter);
        let mut flag = self.status;
        flag.set(CPUFlags::BREAK, false);
        flag.set(CPUFlags::BREAK2, true);
        self.stack_push(flag.bits());
        self.status.insert(CPUFlags::INTERRUPT_DISABLE);
        let _ = self.bus.tick(NMI_CYCLES);
        self.program_counter = self.mem_read_u16(NMI_VECTOR);
    }

    /// Runs one step: enters a pending interrupt, or else runs the
    /// instruction under the program counter.
    pub fn step(&mut self) -> (result: StepResult)
        requires
            old(self).wf(),
        ensures
            (final(self)@, result) == old(self)@.step(),
            final(self).wf(),
    {
        reveal(CpuState::step);
        reveal(Bus::state);
        if self.bus.pull_nmi_status().is_some() {
            self.interrupt_nmi();
            return StepResult::Interrupted;
        }
        let code = self.mem_read(self.program_counter);
        match lookup(code) {
            None => StepResult::UndefinedOpcode(code),
            Some(opcode) => {
                self.program_counter = self.program_counter.wrapping_add(1);
                self.execute(opcode.op, &opcode.addressing_mode);
                self.program_counter = self.program_counter.wrapping_add(
                    (opcode.bytes - 1) as u16,
                );
                let _ = self.bus.tick(opcode.cycles);
                match self.bus.fault {
                    Some(fault) => StepResult::IllegalAccess(fault),
                    None => match opcode.op {
                        Operation::BRK => StepResult::Halted,
                        _ => StepResult::Completed,
                    },
                }
            },
        }
    }
}

} // verus!

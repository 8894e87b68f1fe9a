//! How far one step moves the program counter and the cycle counter.

use crate::bits::wrap16;
use crate::bus::model::{BusState, TICK_LIMIT};
use crate::cpu::addressing::AddressingMode;
use crate::cpu::model::CpuState;
use crate::cpu::opcodes::{lemma_table_rows, opcode_table, MAX_CYCLES};
use crate::cpu::operations::Operation;
use crate::ppu::timing::lemma_tick_moves_dot;
use vstd::prelude::*;

verus! {

/// The operation is a branch.
pub open spec fn is_branch(op: Operation) -> bool {
    ||| op == Operation::BCC
    ||| op == Operation::BCS
    ||| op == Operation::BEQ
    ||| op == Operation::BMI
    ||| op == Operation::BNE
    ||| op == Operation::BPL
    ||| op == Operation::BVC
    ||| op == Operation::BVS
}

/// The operation says itself where the program goes on: a jump, a call, a
/// return or a branch.
pub open spec fn transfers_control(op: Operation) -> bool {
    ||| op == Operation::JMP
    ||| op == Operation::JSR
    ||| op == Operation::RTS
    ||| op == Operation::RTI
    ||| is_branch(op)
}

/// Most cycles that an operation takes on top of those of its row.
pub const EXTRA_CYCLES: usize = 2;

/// The cycle counter is far enough from the end of the machine's word for
/// one step not to wrap it.
pub open spec fn cycles_fit(s: CpuState) -> bool {
    s.bus.cycles + MAX_CYCLES + EXTRA_CYCLES <= usize::MAX
}

/// State `t` is well-formed and at most `most` cycles later than `s`.
pub open spec fn later(s: CpuState, t: CpuState, most: int) -> bool {
    &&& t.wf()
    &&& s.bus.cycles <= t.bus.cycles <= s.bus.cycles + most
}

/// State `t` is well-formed, at most `most` cycles later than `s`, and at
/// the same place in the program.
pub open spec fn steady(s: CpuState, t: CpuState, most: int) -> bool {
    &&& later(s, t, most)
    &&& t.program_counter == s.program_counter
}

/// A read keeps the bus well-formed and the cycle counter as it is.
pub proof fn lemma_read_keeps(s: BusState, addr: u16)
    requires
        s.wf(),
    ensures
        s.read(addr).1.wf(),
        s.read(addr).1.cycles == s.cycles,
{
    reveal(BusState::read);
}

proof fn lemma_read_page_keeps(s: BusState, page: u8, count: nat)
    requires
        s.wf(),
        count <= 256,
    ensures
        s.read_page(page, count).1.wf(),
        s.read_page(page, count).1.cycles == s.cycles,
        s.read_page(page, count).0.len() == count,
    decreases count,
{
    if count > 0 {
        lemma_read_page_keeps(s, page, (count - 1) as nat);
        lemma_read_keeps(
            s.read_page(page, (count - 1) as nat).1,
            (page as int * 256 + count - 1) as u16,
        );
    }
}

/// A write keeps the bus well-formed and the cycle counter as it is.
pub proof fn lemma_write_keeps(s: BusState, addr: u16, data: u8)
    requires
        s.wf(),
    ensures
        s.write(addr, data).wf(),
        s.write(addr, data).cycles == s.cycles,
{
    reveal(BusState::write);
    lemma_read_page_keeps(s, data, 256);
}

/// A tick of the bus keeps it well-formed and adds its cycles to the cycle
/// counter, as long as the counter has room for them.
pub proof fn lemma_tick_keeps(s: BusState, cycles: usize)
    requires
        s.wf(),
        cycles <= TICK_LIMIT,
        s.cycles + cycles <= usize::MAX,
    ensures
        s.tick(cycles).0.wf(),
        s.tick(cycles).0.cycles == s.cycles + cycles,
{
    lemma_tick_moves_dot(s.ppu, (cycles * 3) as nat);
}

/// Reads, writes and ticks of a single cycle keep the bus well-formed; reads
/// and writes leave the cycle counter alone, and such a tick adds one to it
/// where it has room.
proof fn lemma_bus_keeps()
    ensures
        forall|s: BusState, addr: u16|
            s.wf() ==> (#[trigger] s.read(addr)).1.wf() && s.read(addr).1.cycles == s.cycles,
        forall|s: BusState, addr: u16, data: u8|
            s.wf() ==> (#[trigger] s.write(addr, data)).wf() && s.write(addr, data).cycles
                == s.cycles,
        forall|s: BusState|
            s.wf() && s.cycles < usize::MAX ==> (#[trigger] s.tick(1)).0.wf() && s.tick(1).0.cycles
                == s.cycles + 1,
{
    assert forall|s: BusState, addr: u16| s.wf() implies (#[trigger] s.read(addr)).1.wf()
        && s.read(addr).1.cycles == s.cycles by {
        lemma_read_keeps(s, addr);
    }
    assert forall|s: BusState, addr: u16, data: u8| s.wf() implies (#[trigger] s.write(
        addr,
        data,
    )).wf() && s.write(addr, data).cycles == s.cycles by {
        lemma_write_keeps(s, addr, data);
    }
    assert forall|s: BusState| s.wf() && s.cycles < usize::MAX implies (#[trigger] s.tick(
        1,
    )).0.wf() && s.tick(1).0.cycles == s.cycles + 1 by {
        lemma_tick_keeps(s, 1);
    }
}

/// Finding an operand changes nothing but the bus, and on the bus neither
/// well-formedness nor the cycle counter.
pub proof fn lemma_addressing_keeps(s: CpuState, mode: AddressingMode, addr: u16)
    requires
        s.wf(),
    ensures
        s.absolute_address(mode, addr).2 == (CpuState {
            bus: s.absolute_address(mode, addr).2.bus,
            ..s
        }),
        steady(s, s.absolute_address(mode, addr).2, 0),
        s.operand_address(mode).2 == (CpuState { bus: s.operand_address(mode).2.bus, ..s }),
        steady(s, s.operand_address(mode).2, 0),
        s.operand(mode).2 == (CpuState { bus: s.operand(mode).2.bus, ..s }),
        steady(s, s.operand(mode).2, 0),
        s.shift_operand(mode).2 == (CpuState { bus: s.shift_operand(mode).2.bus, ..s }),
        steady(s, s.shift_operand(mode).2, 0),
{
    reveal(CpuState::absolute_address);
    lemma_bus_keeps();
}

/// Operations that read their operand and compute with it leave the
/// program counter alone and take at most the cycle of a crossed page.
proof fn lemma_reading_ops(s: CpuState, mode: AddressingMode, timed: bool, with: u8)
    requires
        s.wf(),
        s.bus.cycles < usize::MAX,
    ensures
        steady(s, s.adc(mode, timed), 1),
        steady(s, s.sbc(mode, timed), 1),
        steady(s, s.and(mode, timed), 1),
        steady(s, s.eor(mode, timed), 1),
        steady(s, s.ora(mode, timed), 1),
        steady(s, s.compare(mode, with, timed), 1),
        steady(s, s.bit(mode), 0),
        steady(s, s.lda(mode), 1),
        steady(s, s.ldx(mode), 1),
        steady(s, s.ldy(mode), 1),
        steady(s, s.nop(mode), 1),
        !timed ==> steady(s, s.adc(mode, timed), 0) && steady(s, s.sbc(mode, timed), 0) && steady(
            s,
            s.and(mode, timed),
            0,
        ) && steady(s, s.eor(mode, timed), 0) && steady(s, s.ora(mode, timed), 0) && steady(
            s,
            s.compare(mode, with, timed),
            0,
        ),
{
    reveal(CpuState::adc);
    reveal(CpuState::sbc);
    reveal(CpuState::and);
    reveal(CpuState::eor);
    reveal(CpuState::ora);
    reveal(CpuState::compare);
    reveal(CpuState::bit);
    reveal(CpuState::lda);
    reveal(CpuState::ldx);
    reveal(CpuState::ldy);
    reveal(CpuState::nop);
    lemma_bus_keeps();
    lemma_addressing_keeps(s, mode, s.program_counter);
}

/// Operations that write memory leave the program counter and the cycle
/// counter alone.
proof fn lemma_writing_ops(s: CpuState, mode: AddressingMode)
    requires
        s.wf(),
    ensures
        steady(s, s.dec(mode), 0),
        steady(s, s.inc(mode), 0),
        steady(s, s.asl(mode), 0),
        steady(s, s.lsr(mode), 0),
        steady(s, s.rol(mode), 0),
        steady(s, s.ror(mode), 0),
        steady(s, s.sta(mode), 0),
        steady(s, s.stx(mode), 0),
        steady(s, s.sty(mode), 0),
        steady(s, s.sax(mode), 0),
{
    reveal(CpuState::dec);
    reveal(CpuState::inc);
    reveal(CpuState::asl);
    reveal(CpuState::lsr);
    reveal(CpuState::rol);
    reveal(CpuState::ror);
    reveal(CpuState::sta);
    reveal(CpuState::stx);
    reveal(CpuState::sty);
    reveal(CpuState::sax);
    lemma_bus_keeps();
    lemma_addressing_keeps(s, mode, s.program_counter);
}

/// Operations on the registers alone leave everything else alone.
proof fn lemma_register_ops(s: CpuState)
    requires
        s.wf(),
    ensures
        steady(s, s.tax(), 0),
        steady(s, s.tay(), 0),
        steady(s, s.tsx(), 0),
        steady(s, s.txa(), 0),
        steady(s, s.tya(), 0),
        steady(s, s.inx(), 0),
        steady(s, s.iny(), 0),
        steady(s, s.dex(), 0),
        steady(s, s.dey(), 0),
        steady(s, s.sei(), 0),
{
    reveal(CpuState::tax);
    reveal(CpuState::tay);
    reveal(CpuState::tsx);
    reveal(CpuState::txa);
    reveal(CpuState::tya);
    reveal(CpuState::inx);
    reveal(CpuState::iny);
    reveal(CpuState::dex);
    reveal(CpuState::dey);
    reveal(CpuState::sei);
}

/// Stack operations leave the program counter and the cycle counter alone;
/// jumps, calls and returns leave the cycle counter alone.
proof fn lemma_stack_ops(s: CpuState, mode: AddressingMode)
    requires
        s.wf(),
    ensures
        steady(s, s.push(s.register_a), 0),
        steady(s, s.php(), 0),
        steady(s, s.pla(), 0),
        steady(s, s.plp(), 0),
        later(s, s.jmp(mode), 0),
        later(s, s.jsr(), 0),
        later(s, s.rts(), 0),
        later(s, s.rti(), 0),
{
    reveal(CpuState::php);
    reveal(CpuState::pla);
    reveal(CpuState::plp);
    reveal(CpuState::jmp);
    reveal(CpuState::jsr);
    reveal(CpuState::rts);
    reveal(CpuState::rti);
    lemma_bus_keeps();
}

/// A branch takes at most two cycles of its own.
proof fn lemma_branch_op(s: CpuState, condition: bool)
    requires
        s.wf(),
        s.bus.cycles + EXTRA_CYCLES <= usize::MAX,
    ensures
        later(s, s.branch(condition), 2),
{
    reveal(CpuState::branch);
    lemma_bus_keeps();
}

/// A page crossed on the way to the operand costs one cycle.
///
/// The operations that read their operand and pay for a crossed page take,
/// on top of the cycles of their row, one cycle exactly where finding the
/// operand crossed a page. Run as the second half of an undocumented
/// operation they take none, and so does BIT.
pub proof fn law_crossing_costs_a_cycle(s: CpuState, mode: AddressingMode, with: u8)
    requires
        s.wf(),
        s.bus.cycles < usize::MAX,
    ensures
        ({
            let extra: int = if s.operand_address(mode).1 {
                1
            } else {
                0
            };
            &&& s.adc(mode, true).bus.cycles == s.bus.cycles + extra
            &&& s.sbc(mode, true).bus.cycles == s.bus.cycles + extra
            &&& s.and(mode, true).bus.cycles == s.bus.cycles + extra
            &&& s.eor(mode, true).bus.cycles == s.bus.cycles + extra
            &&& s.ora(mode, true).bus.cycles == s.bus.cycles + extra
            &&& s.compare(mode, with, true).bus.cycles == s.bus.cycles + extra
            &&& s.lda(mode).bus.cycles == s.bus.cycles + extra
            &&& s.ldx(mode).bus.cycles == s.bus.cycles + extra
            &&& s.ldy(mode).bus.cycles == s.bus.cycles + extra
            &&& s.nop(mode).bus.cycles == s.bus.cycles + extra
        }),
        s.adc(mode, false).bus.cycles == s.bus.cycles,
        s.sbc(mode, false).bus.cycles == s.bus.cycles,
        s.and(mode, false).bus.cycles == s.bus.cycles,
        s.eor(mode, false).bus.cycles == s.bus.cycles,
        s.ora(mode, false).bus.cycles == s.bus.cycles,
        s.compare(mode, with, false).bus.cycles == s.bus.cycles,
        s.bit(mode).bus.cycles == s.bus.cycles,
{
    reveal(CpuState::adc);
    reveal(CpuState::sbc);
    reveal(CpuState::and);
    reveal(CpuState::eor);
    reveal(CpuState::ora);
    reveal(CpuState::compare);
    reveal(CpuState::bit);
    reveal(CpuState::lda);
    reveal(CpuState::ldx);
    reveal(CpuState::ldy);
    reveal(CpuState::nop);
    lemma_bus_keeps();
    lemma_addressing_keeps(s, mode, s.program_counter);
}

/// A branch that is taken costs one cycle, and one more where it leads
/// into another page.
///
/// A branch that is not taken changes nothing. One that is taken moves the
/// program counter by its offset, read as a signed byte; together with the
/// byte that the step adds for the offset itself this leads to the target.
/// It takes one cycle, and a second one where the target lies in another
/// page than the instruction behind the branch.
pub proof fn law_branch_costs(s: CpuState)
    requires
        s.wf(),
        s.bus.cycles + EXTRA_CYCLES <= usize::MAX,
    ensures
        s.branch(false) == s,
        ({
            let offset = s.tick(1).read(s.program_counter).0;
            let target = wrap16(s.program_counter + crate::bits::signed(offset));
            let behind = wrap16(s.program_counter + 1);
            &&& s.branch(true).program_counter == target
            &&& s.branch(true).bus.cycles == s.bus.cycles + 1 + (if behind / 256 != wrap16(
                target + 1,
            ) / 256 {
                1int
            } else {
                0int
            })
        }),
{
    reveal(CpuState::branch);
    lemma_bus_keeps();
}

/// A jump and a call reach their target.
///
/// Both leave the program counter two bytes short of the target, and the
/// step adds the two bytes that follow their opcode: after the step the
/// program counter is the target. A call has pushed the address of its own
/// last byte, high byte first.
pub proof fn law_jump_reaches_target(s: CpuState, mode: AddressingMode)
    requires
        s.wf(),
    ensures
        wrap16(s.jmp(mode).program_counter + 2) == s.jump_target(mode).0,
        s.jmp(mode) == s.jump_target(mode).1.at(s.jmp(mode).program_counter),
        ({
            let pushed = s.push_u16(wrap16(s.program_counter + 1));
            &&& wrap16(s.jsr().program_counter + 2) == pushed.read_u16(s.program_counter).0
            &&& s.jsr().stack_pointer == crate::bits::wrap8(s.stack_pointer - 2)
        }),
{
    reveal(CpuState::jmp);
    reveal(CpuState::jsr);
}

/// What a load or a store leaves alone.
proof fn lemma_memory_family(s: CpuState, op: Operation, mode: AddressingMode)
    requires
        s.wf(),
        s.bus.cycles + EXTRA_CYCLES <= usize::MAX,
        crate::cpu::execute::is_memory(op),
    ensures
        steady(s, s.execute(op, mode), 1),
{
    reveal(CpuState::execute);
    lemma_reading_ops(s, mode, true, 0);
    lemma_writing_ops(s, mode);
    lemma_register_ops(s.lda(mode));
}

/// What an operation on the registers alone leaves alone.
proof fn lemma_register_family(s: CpuState, op: Operation, mode: AddressingMode)
    requires
        s.wf(),
        crate::cpu::execute::is_register(op),
    ensures
        steady(s, s.execute(op, mode), 0),
{
    reveal(CpuState::execute);
    lemma_register_ops(s);
}

/// What an addition, a comparison, a logical operation or a step in
/// memory leaves alone.
proof fn lemma_arithmetic_family(s: CpuState, op: Operation, mode: AddressingMode)
    requires
        s.wf(),
        s.bus.cycles + EXTRA_CYCLES <= usize::MAX,
        crate::cpu::execute::is_arithmetic(op),
    ensures
        steady(s, s.execute(op, mode), 1),
{
    reveal(CpuState::execute);
    lemma_reading_ops(s, mode, true, s.register_a);
    lemma_reading_ops(s, mode, true, s.register_x);
    lemma_reading_ops(s, mode, true, s.register_y);
    lemma_writing_ops(s, mode);
}

/// What a shift or a rotate leaves alone.
proof fn lemma_shift_family(s: CpuState, op: Operation, mode: AddressingMode)
    requires
        s.wf(),
        s.bus.cycles + EXTRA_CYCLES <= usize::MAX,
        crate::cpu::execute::is_shift(op),
    ensures
        steady(s, s.execute(op, mode), 0),
{
    reveal(CpuState::execute);
    reveal(CpuState::anc);
    reveal(CpuState::arr);
    lemma_writing_ops(s, mode);
    lemma_reading_ops(s, mode, false, 0);
    lemma_writing_ops(s.and(mode, false), mode);
}

/// What an operation that changes memory and then computes with the
/// result leaves alone.
proof fn lemma_combined_family(s: CpuState, op: Operation, mode: AddressingMode)
    requires
        s.wf(),
        s.bus.cycles + EXTRA_CYCLES <= usize::MAX,
        crate::cpu::execute::is_combined(op),
    ensures
        steady(s, s.execute(op, mode), 0),
{
    reveal(CpuState::execute);
    lemma_writing_ops(s, mode);
    let t = if op == Operation::SLO {
        s.asl(mode)
    } else if op == Operation::RLA {
        s.rol(mode)
    } else if op == Operation::SRE {
        s.lsr(mode)
    } else if op == Operation::RRA {
        s.ror(mode)
    } else if op == Operation::DCP {
        s.dec(mode)
    } else {
        s.inc(mode)
    };
    lemma_reading_ops(t, mode, false, t.register_a);
}

/// What a branch leaves alone.
proof fn lemma_branch_family(s: CpuState, op: Operation, mode: AddressingMode)
    requires
        s.wf(),
        s.bus.cycles + EXTRA_CYCLES <= usize::MAX,
        is_branch(op),
    ensures
        later(s, s.execute(op, mode), 2),
{
    reveal(CpuState::execute);
    lemma_branch_op(s, true);
    lemma_branch_op(s, false);
}

/// What the setting or clearing of a flag leaves alone.
proof fn lemma_flag_family(s: CpuState, op: Operation, mode: AddressingMode)
    requires
        s.wf(),
        crate::cpu::execute::is_flag(op),
    ensures
        steady(s, s.execute(op, mode), 0),
{
    reveal(CpuState::execute);
    lemma_register_ops(s);
}

/// What a jump, a return, a stack operation, BRK or NOP leaves alone.
proof fn lemma_control_family(s: CpuState, op: Operation, mode: AddressingMode)
    requires
        s.wf(),
        s.bus.cycles + EXTRA_CYCLES <= usize::MAX,
        crate::cpu::execute::is_control(op),
    ensures
        later(s, s.execute(op, mode), 1),
        !transfers_control(op) ==> s.execute(op, mode).program_counter == s.program_counter,
{
    reveal(CpuState::execute);
    lemma_stack_ops(s, mode);
    lemma_reading_ops(s, mode, true, 0);
}

/// An operation keeps the processor well-formed and takes at most two
/// cycles of its own; unless it is a jump, a call, a return or a branch, it
/// leaves the program counter alone.
pub proof fn lemma_execute_keeps(s: CpuState, op: Operation, mode: AddressingMode)
    requires
        s.wf(),
        s.bus.cycles + EXTRA_CYCLES <= usize::MAX,
    ensures
        later(s, s.execute(op, mode), EXTRA_CYCLES as int),
        !is_branch(op) ==> later(s, s.execute(op, mode), 1),
        !transfers_control(op) ==> s.execute(op, mode).program_counter == s.program_counter,
{
    if crate::cpu::execute::is_memory(op) {
        lemma_memory_family(s, op, mode);
    } else if crate::cpu::execute::is_register(op) {
        lemma_register_family(s, op, mode);
    } else if crate::cpu::execute::is_arithmetic(op) {
        lemma_arithmetic_family(s, op, mode);
    } else if crate::cpu::execute::is_shift(op) {
        lemma_shift_family(s, op, mode);
    } else if crate::cpu::execute::is_combined(op) {
        lemma_combined_family(s, op, mode);
    } else if is_branch(op) {
        lemma_branch_family(s, op, mode);
    } else if crate::cpu::execute::is_flag(op) {
        lemma_flag_family(s, op, mode);
    } else {
        lemma_control_family(s, op, mode);
    }
}

/// One step moves the program counter by the length of the instruction and
/// the cycle counter by at least the cycles of its row.
///
/// Take a well-formed state with no interrupt pending, whose cycle counter
/// is not about to wrap, and let the byte under the program counter have a
/// row in the table. Unless the operation is a jump, a call, a return or a
/// branch, the step leaves the program counter behind the instruction: it
/// has moved by the bytes of the row, wrapping at the end of memory. The
/// cycle counter has moved by the cycles of the row and at most two more:
/// one for a page crossed on the way to the operand, and for a branch one
/// for being taken and one for leading into another page.
pub proof fn law_step_advances(s: CpuState)
    requires
        s.wf(),
        cycles_fit(s),
        s.bus.ppu.nmi_interrupt is None,
        opcode_table(s.read(s.program_counter).0) is Some,
    ensures
        ({
            let entry = opcode_table(s.read(s.program_counter).0)->0;
            let t = s.step().0;
            &&& t.wf()
            &&& !transfers_control(entry.op) ==> t.program_counter == wrap16(
                s.program_counter + entry.bytes,
            )
            &&& s.bus.cycles + entry.cycles <= t.bus.cycles <= s.bus.cycles + entry.cycles
                + EXTRA_CYCLES
            &&& !is_branch(entry.op) ==> t.bus.cycles <= s.bus.cycles + entry.cycles + 1
        }),
{
    reveal(CpuState::step);
    let (code, s1) = s.read(s.program_counter);
    lemma_read_keeps(s.bus, s.program_counter);
    lemma_table_rows(code);
    let entry = opcode_table(code)->0;
    let s2 = s1.at(wrap16(s1.program_counter + 1));
    let s3 = s2.execute(entry.op, entry.addressing_mode);
    lemma_execute_keeps(s2, entry.op, entry.addressing_mode);
    let s4 = s3.at(wrap16(s3.program_counter + entry.bytes - 1));
    lemma_tick_keeps(s4.bus, entry.cycles);
}

} // verus!

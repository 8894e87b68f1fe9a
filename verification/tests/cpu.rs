use nes_rs::bus::model::BusFault;
use nes_rs::bus::Bus;
use nes_rs::cartridge::{create_test_cartridge, Cartridge, Mirroring};
use nes_rs::cpu::opcodes::{is_unofficial, lookup};
use nes_rs::cpu::{AddressingMode, CPUFlags, Mem, Operation, StepResult, CPU};

fn cpu_with_program(program: &[u8]) -> CPU {
    let mut cpu = CPU::new(Bus::new(create_test_cartridge()));
    cpu.load(program.to_vec());
    cpu.program_counter = 0x0600;
    cpu
}

fn cpu_with_vectors(reset: u16, nmi: u16) -> CPU {
    let mut prg = vec![0u8; 0x8000];
    prg[0x7ffa] = (nmi & 0xff) as u8;
    prg[0x7ffb] = (nmi >> 8) as u8;
    prg[0x7ffc] = (reset & 0xff) as u8;
    prg[0x7ffd] = (reset >> 8) as u8;
    let cartridge = Cartridge {
        prg_rom: prg,
        chr_rom: vec![0; 8192],
        mapper: 0,
        screen_mirroring: Mirroring::Horizontal,
    };
    CPU::new(Bus::new(cartridge))
}

#[test]
fn reset_loads_the_reset_vector() {
    let mut cpu = cpu_with_vectors(0xc123, 0);
    cpu.register_a = 1;
    cpu.register_x = 2;
    cpu.register_y = 3;
    cpu.stack_pointer = 0x10;
    cpu.status = CPUFlags::from_bits_retain(0xff);
    cpu.reset();
    assert_eq!(cpu.program_counter, 0xc123);
    assert_eq!((cpu.register_a, cpu.register_x, cpu.register_y), (0, 0, 0));
    assert_eq!(cpu.stack_pointer, 0xfd);
    assert_eq!(cpu.status.bits(), 0b0010_0100);
    assert!(cpu.status.contains(CPUFlags::INTERRUPT_DISABLE));
    assert!(cpu.status.contains(CPUFlags::BREAK2));
}

#[test]
fn new_processor_looks_like_after_reset() {
    let cpu = CPU::default();
    assert_eq!((cpu.register_a, cpu.register_x, cpu.register_y), (0, 0, 0));
    assert_eq!(cpu.stack_pointer, 0xfd);
    assert_eq!(cpu.status.bits(), 0x24);
    assert_eq!(cpu.program_counter, 0);
    assert_eq!(cpu.bus.cycles, 7);
}

#[test]
fn lda_tax_inx_brk() {
    let mut cpu = cpu_with_program(&[0xa9, 0x05, 0xaa, 0xe8, 0x00]);
    assert_eq!(cpu.run(100), Some(StepResult::Halted));
    assert_eq!(cpu.register_a, 5);
    assert_eq!(cpu.register_x, 6);
    assert!(!cpu.status.contains(CPUFlags::ZERO));
    assert!(!cpu.status.contains(CPUFlags::NEGATIVE));
    assert_eq!(cpu.program_counter, 0x0605);
    assert_eq!(cpu.bus.cycles, 7 + 2 + 2 + 2 + 7);
}

#[test]
fn run_stops_at_the_limit() {
    let mut cpu = cpu_with_program(&[0xa9, 0x05, 0xaa, 0xe8, 0x00]);
    assert_eq!(cpu.run(2), None);
    assert_eq!(cpu.register_x, 5);
    assert_eq!(cpu.program_counter, 0x0603);
    assert_eq!(cpu.run(0), None);
    assert_eq!(cpu.program_counter, 0x0603);
}

#[test]
fn load_and_run_starts_at_the_reset_vector() {
    // The reset vector of the test cartridge is 0, where the working memory
    // holds a BRK.
    let mut cpu = CPU::new(Bus::new(create_test_cartridge()));
    assert_eq!(cpu.load_and_run(vec![0xa9, 0x05, 0x00], 10), Some(StepResult::Halted));
    assert_eq!(cpu.register_a, 0);
    assert_eq!(cpu.program_counter, 1);
    assert_eq!(cpu.mem_read(0x0600), 0xa9);
    assert_eq!(cpu.mem_read(0x0601), 0x05);
}

#[test]
fn steps_advance_by_the_length_of_the_instruction() {
    // NOP; LDA #$10; STA $0200; LDA $0200,X; INC $10
    let mut cpu = cpu_with_program(&[0xea, 0xa9, 0x10, 0x8d, 0x00, 0x02, 0xbd, 0x00, 0x02, 0xe6, 0x10]);
    let mut pc = 0x0600;
    let mut cycles = 7;
    for (bytes, cost) in [(1u16, 2usize), (2, 2), (3, 4), (3, 4), (2, 5)] {
        assert_eq!(cpu.step(), StepResult::Completed);
        pc += bytes;
        cycles += cost;
        assert_eq!(cpu.program_counter, pc);
        assert_eq!(cpu.bus.cycles, cycles);
    }
    assert_eq!(cpu.mem_read(0x0200), 0x10);
    assert_eq!(cpu.mem_read(0x0010), 1);
}

#[test]
fn every_row_of_the_table_advances_by_its_bytes() {
    for code in 0..=255u8 {
        let Some(entry) = lookup(code) else { continue };
        assert_eq!(entry.code, code);
        let control = matches!(
            entry.op,
            Operation::JMP
                | Operation::JSR
                | Operation::RTS
                | Operation::RTI
                | Operation::BCC
                | Operation::BCS
                | Operation::BEQ
                | Operation::BMI
                | Operation::BNE
                | Operation::BPL
                | Operation::BVC
                | Operation::BVS
        );
        let mut cpu = cpu_with_program(&[code, 0x40, 0x03]);
        let before = cpu.bus.cycles;
        let result = cpu.step();
        if entry.op == Operation::BRK {
            assert_eq!(result, StepResult::Halted);
        } else {
            assert_eq!(result, StepResult::Completed, "opcode {:02x}", code);
        }
        if !control {
            assert_eq!(cpu.program_counter, 0x0600 + entry.bytes as u16, "opcode {:02x}", code);
        }
        let spent = cpu.bus.cycles - before;
        assert!(spent >= entry.cycles && spent <= entry.cycles + 2, "opcode {:02x}", code);
    }
}

#[test]
fn table_has_232_rows() {
    let rows = (0..=255u8).filter(|code| lookup(*code).is_some()).count();
    assert_eq!(rows, 232);
    let entry = lookup(0xa9).unwrap();
    assert_eq!(entry.op, Operation::LDA);
    assert_eq!(entry.addressing_mode, AddressingMode::Immediate);
    assert_eq!((entry.bytes, entry.cycles), (2, 2));
    let entry = lookup(0x6c).unwrap();
    assert_eq!(entry.op, Operation::JMP);
    assert_eq!(entry.addressing_mode, AddressingMode::Indirect);
    assert_eq!((entry.bytes, entry.cycles), (3, 5));
    assert!(lookup(0x02).is_none());
    assert!(lookup(0x0b).is_none());
    assert!(is_unofficial(0xa7));
    assert!(is_unofficial(0x80));
    assert!(!is_unofficial(0xa9));
    assert!(!is_unofficial(0x82));
}

#[test]
fn undefined_opcode_stops_the_program() {
    let mut cpu = cpu_with_program(&[0xea, 0x02]);
    assert_eq!(cpu.run(10), Some(StepResult::UndefinedOpcode(0x02)));
    assert_eq!(cpu.program_counter, 0x0601);
    assert_eq!(cpu.step(), StepResult::UndefinedOpcode(0x02));
}

#[test]
fn illegal_access_stops_the_program() {
    // LDA $2000 reads a write-only register.
    let mut cpu = cpu_with_program(&[0xad, 0x00, 0x20, 0xea]);
    assert_eq!(cpu.run(10), Some(StepResult::IllegalAccess(BusFault::WriteOnly(0x2000))));
    assert_eq!(cpu.program_counter, 0x0603);
    assert_eq!(cpu.register_a, 0);
    assert_eq!(cpu.bus.take_fault(), Some(BusFault::WriteOnly(0x2000)));
    assert_eq!(cpu.step(), StepResult::Completed);
}

#[test]
fn adc_flags_follow_twos_complement() {
    let mut cpu = CPU::default();
    for a in 0..=255u8 {
        for m in 0..=255u8 {
            for carry in 0..=1u8 {
                cpu.register_a = a;
                cpu.status = CPUFlags::from_bits_retain(0x24 | carry);
                cpu.add_to_register_a(m);
                let unsigned = a as u16 + m as u16 + carry as u16;
                let signed = a as i8 as i16 + m as i8 as i16 + carry as i16;
                assert_eq!(cpu.register_a, (unsigned & 0xff) as u8);
                assert_eq!(cpu.status.contains(CPUFlags::CARRY), unsigned > 0xff);
                assert_eq!(cpu.status.contains(CPUFlags::OVERFLOW), !(-128..=127).contains(&signed));
                assert_eq!(cpu.status.contains(CPUFlags::ZERO), cpu.register_a == 0);
                assert_eq!(cpu.status.contains(CPUFlags::NEGATIVE), cpu.register_a >= 0x80);
            }
        }
    }
}

#[test]
fn adc_immediate_examples() {
    // CLC; LDA #$50; ADC #$50
    let mut cpu = cpu_with_program(&[0x18, 0xa9, 0x50, 0x69, 0x50, 0x00]);
    cpu.run(10);
    assert_eq!(cpu.register_a, 0xa0);
    assert_eq!(cpu.status.bits(), 0x24 | 0x40 | 0x80);
    // SEC; LDA #$ff; ADC #$00
    let mut cpu = cpu_with_program(&[0x38, 0xa9, 0xff, 0x69, 0x00, 0x00]);
    cpu.run(10);
    assert_eq!(cpu.register_a, 0x00);
    assert_eq!(cpu.status.bits(), 0x24 | 0x01 | 0x02);
}

#[test]
fn sbc_is_adc_of_the_complement() {
    // SEC; LDA #$50; SBC #$f0
    let mut cpu = cpu_with_program(&[0x38, 0xa9, 0x50, 0xe9, 0xf0, 0x00]);
    cpu.run(10);
    assert_eq!(cpu.register_a, 0x60);
    assert!(!cpu.status.contains(CPUFlags::CARRY));
    assert!(!cpu.status.contains(CPUFlags::OVERFLOW));
    // SEC; LDA #$50; SBC #$b0
    let mut cpu = cpu_with_program(&[0x38, 0xa9, 0x50, 0xe9, 0xb0, 0x00]);
    cpu.run(10);
    assert_eq!(cpu.register_a, 0xa0);
    assert!(!cpu.status.contains(CPUFlags::CARRY));
    assert!(cpu.status.contains(CPUFlags::OVERFLOW));
    // CLC; LDA #$05; SBC #$03
    let mut cpu = cpu_with_program(&[0x18, 0xa9, 0x05, 0xe9, 0x03, 0x00]);
    cpu.run(10);
    assert_eq!(cpu.register_a, 0x01);
    assert!(cpu.status.contains(CPUFlags::CARRY));
}

#[test]
fn logic_operations() {
    // LDA #$76; EOR #$ac; AND #$ac; ORA #$01
    let mut cpu = cpu_with_program(&[0xa9, 0x76, 0x49, 0xac, 0x29, 0xac, 0x09, 0x01, 0x00]);
    cpu.step();
    cpu.step();
    assert_eq!(cpu.register_a, 0xda);
    cpu.step();
    assert_eq!(cpu.register_a, 0x88);
    assert!(cpu.status.contains(CPUFlags::NEGATIVE));
    cpu.step();
    assert_eq!(cpu.register_a, 0x89);
}

#[test]
fn compare_sets_carry_zero_negative() {
    // LDA #$40; CMP #$40; CMP #$41; CMP #$3f
    let mut cpu = cpu_with_program(&[0xa9, 0x40, 0xc9, 0x40, 0xc9, 0x41, 0xc9, 0x3f, 0x00]);
    cpu.step();
    cpu.step();
    assert_eq!(cpu.status.bits() & 0x83, 0x03);
    cpu.step();
    assert_eq!(cpu.status.bits() & 0x83, 0x80);
    cpu.step();
    assert_eq!(cpu.status.bits() & 0x83, 0x01);
    assert_eq!(cpu.register_a, 0x40);
}

#[test]
fn bit_copies_bits_six_and_seven() {
    // LDA #$01; BIT $10
    let mut cpu = cpu_with_program(&[0xa9, 0x01, 0x24, 0x10, 0x00]);
    cpu.mem_write(0x0010, 0xc0);
    cpu.run(10);
    assert_eq!(cpu.status.bits(), 0x24 | 0x02 | 0x40 | 0x80);
}

#[test]
fn shifts_and_rotates_of_the_accumulator() {
    // LDA #$81; ASL A
    let mut cpu = cpu_with_program(&[0xa9, 0x81, 0x0a, 0x00]);
    cpu.run(10);
    assert_eq!(cpu.register_a, 0x02);
    assert!(cpu.status.contains(CPUFlags::CARRY));
    // LDA #$81; LSR A
    let mut cpu = cpu_with_program(&[0xa9, 0x81, 0x4a, 0x00]);
    cpu.run(10);
    assert_eq!(cpu.register_a, 0x40);
    assert!(cpu.status.contains(CPUFlags::CARRY));
    // SEC; LDA #$40; ROL A
    let mut cpu = cpu_with_program(&[0x38, 0xa9, 0x40, 0x2a, 0x00]);
    cpu.run(10);
    assert_eq!(cpu.register_a, 0x81);
    assert!(!cpu.status.contains(CPUFlags::CARRY));
    assert!(cpu.status.contains(CPUFlags::NEGATIVE));
    // SEC; LDA #$01; ROR A
    let mut cpu = cpu_with_program(&[0x38, 0xa9, 0x01, 0x6a, 0x00]);
    cpu.run(10);
    assert_eq!(cpu.register_a, 0x80);
    assert!(cpu.status.contains(CPUFlags::CARRY));
    // CLC; LDA #$01; ROR A
    let mut cpu = cpu_with_program(&[0x18, 0xa9, 0x01, 0x6a, 0x00]);
    cpu.run(10);
    assert_eq!(cpu.register_a, 0x00);
    assert!(cpu.status.contains(CPUFlags::ZERO));
}

#[test]
fn shifts_and_rotates_of_memory() {
    // SEC; ROL $10; ASL $11; LSR $12; ROR $13
    let mut cpu = cpu_with_program(&[0x38, 0x26, 0x10, 0x06, 0x11, 0x46, 0x12, 0x66, 0x13, 0x00]);
    cpu.mem_write(0x0010, 0x80);
    cpu.mem_write(0x0011, 0x41);
    cpu.mem_write(0x0012, 0x03);
    cpu.mem_write(0x0013, 0x02);
    cpu.register_a = 0x77;
    cpu.step();
    cpu.step();
    assert_eq!(cpu.mem_read(0x0010), 0x01);
    assert!(cpu.status.contains(CPUFlags::CARRY));
    cpu.step();
    assert_eq!(cpu.mem_read(0x0011), 0x82);
    assert!(!cpu.status.contains(CPUFlags::CARRY));
    assert!(cpu.status.contains(CPUFlags::NEGATIVE));
    cpu.step();
    assert_eq!(cpu.mem_read(0x0012), 0x01);
    assert!(cpu.status.contains(CPUFlags::CARRY));
    cpu.step();
    assert_eq!(cpu.mem_read(0x0013), 0x81);
    assert!(!cpu.status.contains(CPUFlags::CARRY));
    assert_eq!(cpu.register_a, 0x77);
}

#[test]
fn increments_and_decrements_wrap() {
    // LDX #$ff; INX; DEX; LDY #$00; DEY; INY; DEC $10; INC $10
    let mut cpu = cpu_with_program(&[
        0xa2, 0xff, 0xe8, 0xca, 0xa0, 0x00, 0x88, 0xc8, 0xc6, 0x10, 0xe6, 0x10, 0x00,
    ]);
    cpu.step();
    cpu.step();
    assert_eq!(cpu.register_x, 0);
    assert!(cpu.status.contains(CPUFlags::ZERO));
    cpu.step();
    assert_eq!(cpu.register_x, 0xff);
    cpu.step();
    cpu.step();
    assert_eq!(cpu.register_y, 0xff);
    assert!(cpu.status.contains(CPUFlags::NEGATIVE));
    cpu.step();
    assert_eq!(cpu.register_y, 0);
    cpu.step();
    assert_eq!(cpu.mem_read(0x0010), 0xff);
    cpu.step();
    assert_eq!(cpu.mem_read(0x0010), 0x00);
    assert!(cpu.status.contains(CPUFlags::ZERO));
}

#[test]
fn transfers_between_registers() {
    // LDA #$80; TAX; TAY; LDX #$10; TXS; TSX; LDA #$00; TXA; LDY #$22; TYA
    let mut cpu = cpu_with_program(&[
        0xa9, 0x80, 0xaa, 0xa8, 0xa2, 0x10, 0x9a, 0xba, 0xa9, 0x00, 0x8a, 0xa0, 0x22, 0x98, 0x00,
    ]);
    cpu.step();
    cpu.step();
    cpu.step();
    assert_eq!((cpu.register_x, cpu.register_y), (0x80, 0x80));
    cpu.step();
    cpu.step();
    assert_eq!(cpu.stack_pointer, 0x10);
    cpu.step();
    assert_eq!(cpu.register_x, 0x10);
    cpu.step();
    cpu.step();
    assert_eq!(cpu.register_a, 0x10);
    cpu.step();
    cpu.step();
    assert_eq!(cpu.register_a, 0x22);
}

#[test]
fn flag_instructions() {
    // SEC; SED; SEI; CLC; CLD; CLI; CLV
    let mut cpu = cpu_with_program(&[0x38, 0xf8, 0x78, 0x18, 0xd8, 0x58, 0xb8, 0x00]);
    cpu.status = CPUFlags::from_bits_retain(0x40);
    cpu.step();
    cpu.step();
    cpu.step();
    assert_eq!(cpu.status.bits(), 0x4d);
    cpu.step();
    cpu.step();
    cpu.step();
    cpu.step();
    assert_eq!(cpu.status.bits(), 0x00);
}

#[test]
fn addressing_modes() {
    let mut cpu = cpu_with_program(&[0x10, 0x20, 0x03]);
    cpu.register_x = 0xf5;
    cpu.register_y = 0x04;
    cpu.mem_write(0x0010, 0x34);
    cpu.mem_write(0x0011, 0x12);
    cpu.mem_write(0x0005, 0xff);
    cpu.mem_write(0x0006, 0x02);
    assert_eq!(cpu.get_operand_address(&AddressingMode::Immediate), (0x0600, false));
    assert_eq!(cpu.get_operand_address(&AddressingMode::ZeroPage), (0x0010, false));
    assert_eq!(cpu.get_operand_address(&AddressingMode::ZeroPage_X), (0x0005, false));
    assert_eq!(cpu.get_operand_address(&AddressingMode::ZeroPage_Y), (0x0014, false));
    assert_eq!(cpu.get_operand_address(&AddressingMode::Absolute), (0x2010, false));
    assert_eq!(cpu.get_operand_address(&AddressingMode::Absolute_X), (0x2105, true));
    assert_eq!(cpu.get_operand_address(&AddressingMode::Absolute_Y), (0x2014, false));
    assert_eq!(cpu.get_operand_address(&AddressingMode::Indirect_X), (0x02ff, false));
    assert_eq!(cpu.get_operand_address(&AddressingMode::Indirect_Y), (0x1238, false));
    assert_eq!(cpu.get_operand_address(&AddressingMode::NoneAddressing), (0, false));
    assert_eq!(cpu.get_operand_address(&AddressingMode::Indirect), (0, false));
    assert_eq!(cpu.get_absolute_address(&AddressingMode::Absolute, 0x0601), (0x0320, false));
    cpu.register_y = 0xf0;
    assert_eq!(cpu.get_operand_address(&AddressingMode::Indirect_Y), (0x1324, true));
    assert!(CPU::page_cross(0x10ff, 0x1100));
    assert!(!CPU::page_cross(0x1100, 0x11ff));
}

#[test]
fn zero_page_pointers_wrap() {
    let mut cpu = cpu_with_program(&[0xff]);
    cpu.mem_write(0x00ff, 0x34);
    cpu.mem_write(0x0000, 0x12);
    cpu.register_x = 0;
    cpu.register_y = 0;
    assert_eq!(cpu.get_operand_address(&AddressingMode::Indirect_X), (0x1234, false));
    assert_eq!(cpu.get_operand_address(&AddressingMode::Indirect_Y), (0x1234, false));
}

#[test]
fn page_crossing_costs_a_cycle() {
    // LDA $02ff,X with X = 1
    let mut cpu = cpu_with_program(&[0xbd, 0xff, 0x02]);
    cpu.register_x = 1;
    cpu.mem_write(0x0300, 0x5a);
    cpu.step();
    assert_eq!(cpu.register_a, 0x5a);
    assert_eq!(cpu.bus.cycles, 7 + 5);
    // STA $02ff,X pays no extra cycle.
    let mut cpu = cpu_with_program(&[0x9d, 0xff, 0x02]);
    cpu.register_x = 1;
    cpu.step();
    assert_eq!(cpu.bus.cycles, 7 + 5);
    // LDA $0200,X does not cross.
    let mut cpu = cpu_with_program(&[0xbd, 0x00, 0x02]);
    cpu.register_x = 1;
    cpu.step();
    assert_eq!(cpu.bus.cycles, 7 + 4);
}

#[test]
fn branches_cost_cycles_when_taken() {
    // BNE +2 with zero clear: taken, same page.
    let mut cpu = cpu_with_program(&[0xd0, 0x02]);
    cpu.step();
    assert_eq!(cpu.program_counter, 0x0604);
    assert_eq!(cpu.bus.cycles, 7 + 3);
    // BEQ +2 with zero clear: not taken.
    let mut cpu = cpu_with_program(&[0xf0, 0x02]);
    cpu.step();
    assert_eq!(cpu.program_counter, 0x0602);
    assert_eq!(cpu.bus.cycles, 7 + 2);
    // BNE -4: taken, into the page before.
    let mut cpu = cpu_with_program(&[0xd0, 0xfc]);
    cpu.step();
    assert_eq!(cpu.program_counter, 0x05fe);
    assert_eq!(cpu.bus.cycles, 7 + 4);
}

#[test]
fn branch_page_is_judged_from_the_next_instruction() {
    // A branch in the last two bytes of a page: the next instruction starts
    // the following page, and a target there crosses none.
    let mut cpu = CPU::new(Bus::new(create_test_cartridge()));
    cpu.mem_write(0x06fe, 0xd0);
    cpu.mem_write(0x06ff, 0x02);
    cpu.program_counter = 0x06fe;
    cpu.step();
    assert_eq!(cpu.program_counter, 0x0702);
    assert_eq!(cpu.bus.cycles, 7 + 3);
}

#[test]
fn jumps_and_calls() {
    // JMP $0610
    let mut cpu = cpu_with_program(&[0x4c, 0x10, 0x06]);
    cpu.step();
    assert_eq!(cpu.program_counter, 0x0610);
    assert_eq!(cpu.bus.cycles, 7 + 3);
    // JSR $0610 ... RTS
    let mut cpu = cpu_with_program(&[0x20, 0x10, 0x06, 0xea]);
    cpu.mem_write(0x0610, 0x60);
    cpu.step();
    assert_eq!(cpu.program_counter, 0x0610);
    assert_eq!(cpu.stack_pointer, 0xfb);
    assert_eq!(cpu.mem_read(0x01fd), 0x06);
    assert_eq!(cpu.mem_read(0x01fc), 0x02);
    cpu.step();
    assert_eq!(cpu.program_counter, 0x0603);
    assert_eq!(cpu.stack_pointer, 0xfd);
}

#[test]
fn indirect_jump_wraps_inside_the_page() {
    // JMP ($02ff)
    let mut cpu = cpu_with_program(&[0x6c, 0xff, 0x02]);
    cpu.mem_write(0x02ff, 0x34);
    cpu.mem_write(0x0300, 0x56);
    cpu.mem_write(0x0200, 0x12);
    cpu.step();
    assert_eq!(cpu.program_counter, 0x1234);
    // JMP ($0280)
    let mut cpu = cpu_with_program(&[0x6c, 0x80, 0x02]);
    cpu.mem_write(0x0280, 0x78);
    cpu.mem_write(0x0281, 0x56);
    cpu.step();
    assert_eq!(cpu.program_counter, 0x5678);
}

#[test]
fn stack_operations() {
    // LDA #$42; PHA; LDA #$00; PLA; PHP; PLP
    let mut cpu = cpu_with_program(&[0xa9, 0x42, 0x48, 0xa9, 0x00, 0x68, 0x08, 0x28, 0x00]);
    cpu.step();
    cpu.step();
    assert_eq!(cpu.stack_pointer, 0xfc);
    assert_eq!(cpu.mem_read(0x01fd), 0x42);
    cpu.step();
    cpu.step();
    assert_eq!(cpu.register_a, 0x42);
    assert_eq!(cpu.stack_pointer, 0xfd);
    cpu.step();
    assert_eq!(cpu.mem_read(0x01fd), 0x24 | 0x30);
    cpu.status = CPUFlags::from_bits_retain(0x10);
    cpu.step();
    // Break and the unused bit keep their value; the rest is pulled.
    assert_eq!(cpu.status.bits(), 0x14);
}

#[test]
fn stack_pointer_wraps_inside_the_stack_page() {
    let mut cpu = CPU::new(Bus::new(create_test_cartridge()));
    cpu.stack_pointer = 0x00;
    cpu.stack_push(0xaa);
    assert_eq!(cpu.stack_pointer, 0xff);
    assert_eq!(cpu.mem_read(0x0100), 0xaa);
    assert_eq!(cpu.stack_pop(), 0xaa);
    assert_eq!(cpu.stack_pointer, 0x00);
    cpu.stack_push_u16(0x1234);
    assert_eq!(cpu.mem_read(0x0100), 0x12);
    assert_eq!(cpu.mem_read(0x01ff), 0x34);
    assert_eq!(cpu.stack_pop_u16(), 0x1234);
}

#[test]
fn rti_pulls_flags_and_address() {
    let mut cpu = cpu_with_program(&[0x40]);
    cpu.stack_push_u16(0x0700);
    cpu.stack_push(0xc3);
    cpu.step();
    assert_eq!(cpu.program_counter, 0x0700);
    assert_eq!(cpu.status.bits(), 0xe3);
}

#[test]
fn pending_interrupt_is_entered_before_the_instruction() {
    let mut cpu = cpu_with_vectors(0x8000, 0x9000);
    cpu.reset();
    cpu.status = CPUFlags::from_bits_retain(0x31);
    cpu.bus.ppu.nmi_interrupt = Some(1);
    let cycles = cpu.bus.cycles;
    assert_eq!(cpu.step(), StepResult::Interrupted);
    assert_eq!(cpu.program_counter, 0x9000);
    assert_eq!(cpu.stack_pointer, 0xfa);
    assert_eq!(cpu.mem_read(0x01fd), 0x80);
    assert_eq!(cpu.mem_read(0x01fc), 0x00);
    assert_eq!(cpu.mem_read(0x01fb), 0x21);
    assert_eq!(cpu.status.bits(), 0x35);
    assert_eq!(cpu.bus.cycles, cycles + 2);
    assert!(cpu.bus.ppu.nmi_interrupt.is_none());
    // The next step runs the instruction at the handler: BRK.
    assert_eq!(cpu.step(), StepResult::Halted);
}

#[test]
fn undocumented_operations_combine_two() {
    // LAX $10
    let mut cpu = cpu_with_program(&[0xa7, 0x10]);
    cpu.mem_write(0x0010, 0x85);
    cpu.step();
    assert_eq!((cpu.register_a, cpu.register_x), (0x85, 0x85));
    // SAX $10
    let mut cpu = cpu_with_program(&[0x87, 0x10]);
    cpu.register_a = 0xf0;
    cpu.register_x = 0x3c;
    cpu.step();
    assert_eq!(cpu.mem_read(0x0010), 0x30);
    // DCP $10
    let mut cpu = cpu_with_program(&[0xc7, 0x10]);
    cpu.mem_write(0x0010, 0x41);
    cpu.register_a = 0x40;
    cpu.step();
    assert_eq!(cpu.mem_read(0x0010), 0x40);
    assert_eq!(cpu.status.bits() & 0x83, 0x03);
    // ISB $10
    let mut cpu = cpu_with_program(&[0xe7, 0x10]);
    cpu.mem_write(0x0010, 0x0f);
    cpu.register_a = 0x20;
    cpu.status = CPUFlags::from_bits_retain(0x25);
    cpu.step();
    assert_eq!(cpu.mem_read(0x0010), 0x10);
    assert_eq!(cpu.register_a, 0x10);
    // SLO $10
    let mut cpu = cpu_with_program(&[0x07, 0x10]);
    cpu.mem_write(0x0010, 0x81);
    cpu.register_a = 0x01;
    cpu.step();
    assert_eq!(cpu.mem_read(0x0010), 0x02);
    assert_eq!(cpu.register_a, 0x03);
    assert!(cpu.status.contains(CPUFlags::CARRY));
    // RLA $10
    let mut cpu = cpu_with_program(&[0x27, 0x10]);
    cpu.mem_write(0x0010, 0x41);
    cpu.register_a = 0x83;
    cpu.status = CPUFlags::from_bits_retain(0x25);
    cpu.step();
    assert_eq!(cpu.mem_read(0x0010), 0x83);
    assert_eq!(cpu.register_a, 0x83);
    // SRE $10
    let mut cpu = cpu_with_program(&[0x47, 0x10]);
    cpu.mem_write(0x0010, 0x03);
    cpu.register_a = 0x03;
    cpu.step();
    assert_eq!(cpu.mem_read(0x0010), 0x01);
    assert_eq!(cpu.register_a, 0x02);
    assert!(cpu.status.contains(CPUFlags::CARRY));
    // RRA $10
    let mut cpu = cpu_with_program(&[0x67, 0x10]);
    cpu.mem_write(0x0010, 0x03);
    cpu.register_a = 0x10;
    cpu.status = CPUFlags::from_bits_retain(0x24);
    cpu.step();
    assert_eq!(cpu.mem_read(0x0010), 0x01);
    assert_eq!(cpu.register_a, 0x12);
}

#[test]
fn operations_outside_the_table() {
    let mut cpu = cpu_with_program(&[0x8f, 0x00]);
    cpu.register_a = 0xff;
    cpu.anc(&AddressingMode::Immediate);
    assert_eq!(cpu.register_a, 0x8f);
    assert!(cpu.status.contains(CPUFlags::CARRY));
    let mut cpu = cpu_with_program(&[0x10, 0x00]);
    cpu.mem_write(0x0010, 0x07);
    cpu.register_a = 0x0f;
    cpu.arr(&AddressingMode::ZeroPage);
    assert_eq!(cpu.register_a, 0x07);
    assert_eq!(cpu.mem_read(0x0010), 0x03);
    let mut cpu = cpu_with_program(&[0x10, 0x00]);
    cpu.mem_write(0x0010, 0x07);
    cpu.register_a = 0x0f;
    cpu.execute(Operation::ALR, &AddressingMode::ZeroPage);
    assert_eq!(cpu.mem_read(0x0010), 0x03);
    let mut cpu = cpu_with_program(&[0xea]);
    cpu.brk();
    assert_eq!(cpu.program_counter, 0xfeee);
    assert_eq!(cpu.stack_pointer, 0xfa);
    assert_eq!(cpu.mem_read(0x01fd), 0x06);
    assert_eq!(cpu.mem_read(0x01fc), 0x01);
    assert_eq!(cpu.mem_read(0x01fb), 0x34);
    assert!(cpu.status.contains(CPUFlags::INTERRUPT_DISABLE));
}

#[test]
fn flags_are_a_mask() {
    let mut flags = CPUFlags::from_bits_truncate(0b0010_0100);
    assert!(flags.contains(CPUFlags::INTERRUPT_DISABLE));
    flags.insert(CPUFlags::CARRY);
    flags.remove(CPUFlags::INTERRUPT_DISABLE);
    flags.set(CPUFlags::NEGATIVE, true);
    flags.set(CPUFlags::BREAK2, false);
    assert_eq!(flags.bits(), 0b1000_0001);
    assert_eq!(CPUFlags::from_bits_retain(0xff).bits(), 0xff);
}

#[test]
fn operations_have_names() {
    assert_eq!(Operation::LDA.name(), "LDA");
    assert_eq!(Operation::ISB.name(), "ISB");
    assert_eq!(Operation::ARR.name(), "ARR");
}

use nes_rs::bus::Bus;
use nes_rs::cartridge::create_test_cartridge;
use nes_rs::cpu::trace::{decimal_string, hex_string, trace};
use nes_rs::cpu::{Mem, StepResult, CPU};
use nes_rs::joypad::JoypadButton;

fn trace_until_halt(cpu: &mut CPU) -> Vec<String> {
    let mut result = vec![];
    for _ in 0..100 {
        result.push(trace(cpu).unwrap());
        if cpu.step() != StepResult::Completed {
            break;
        }
    }
    result
}

#[test]
fn trace_test_format_trace() {
    let mut bus = Bus::default(create_test_cartridge());
    bus.mem_write(100, 0xa2);
    bus.mem_write(101, 0x01);
    bus.mem_write(102, 0xca);
    bus.mem_write(103, 0x88);
    bus.mem_write(104, 0x00);

    let mut cpu = CPU::new(bus);
    cpu.program_counter = 0x64;
    cpu.register_a = 1;
    cpu.register_x = 2;
    cpu.register_y = 3;
    let result = trace_until_halt(&mut cpu);
    assert_eq!(
        "0064  A2 01     LDX #$01                        A:01 X:02 Y:03 P:24 SP:FD PPU:  0, 21 CYC:7",
        result[0]
    );
    assert_eq!(
        "0066  CA        DEX                             A:01 X:01 Y:03 P:24 SP:FD PPU:  0, 27 CYC:9",
        result[1]
    );
    assert_eq!(
        "0067  88        DEY                             A:01 X:00 Y:03 P:26 SP:FD PPU:  0, 33 CYC:11",
        result[2]
    );
}

#[test]
fn trace_test_format_mem_access() {
    let mut bus = Bus::default(create_test_cartridge());
    // ORA ($33), Y
    bus.mem_write(100, 0x11);
    bus.mem_write(101, 0x33);

    //data
    bus.mem_write(0x33, 0x00);
    bus.mem_write(0x34, 0x04);

    //target cell
    bus.mem_write(0x400, 0xAA);

    let mut cpu = CPU::new(bus);
    cpu.program_counter = 0x64;
    cpu.register_y = 0;
    let result = trace_until_halt(&mut cpu);
    assert_eq!(
        "0064  11 33     ORA ($33),Y = 0400 @ 0400 = AA  A:00 X:00 Y:00 P:24 SP:FD PPU:  0, 21 CYC:7",
        result[0]
    );
}

fn line(program: &[u8], setup: impl FnOnce(&mut CPU)) -> String {
    let mut cpu = CPU::new(Bus::new(create_test_cartridge()));
    cpu.load(program.to_vec());
    cpu.program_counter = 0x0600;
    setup(&mut cpu);
    let text = trace(&mut cpu).unwrap();
    text[..48].trim_end().to_string()
}

#[test]
fn trace_shows_every_addressing_mode() {
    assert_eq!(line(&[0x0a], |_| {}), "0600  0A        ASL A");
    assert_eq!(line(&[0xea], |_| {}), "0600  EA        NOP");
    assert_eq!(line(&[0xa9, 0x7f], |_| {}), "0600  A9 7F     LDA #$7F");
    assert_eq!(
        line(&[0xa5, 0x10], |cpu| cpu.mem_write(0x10, 0xab)),
        "0600  A5 10     LDA $10 = AB"
    );
    assert_eq!(
        line(&[0xb5, 0xf0], |cpu| {
            cpu.register_x = 0x20;
            cpu.mem_write(0x10, 0xcd)
        }),
        "0600  B5 F0     LDA $F0,X @ 10 = CD"
    );
    assert_eq!(
        line(&[0xb6, 0x10], |cpu| {
            cpu.register_y = 0x02;
            cpu.mem_write(0x12, 0x01)
        }),
        "0600  B6 10     LDX $10,Y @ 12 = 01"
    );
    assert_eq!(
        line(&[0xa1, 0x80], |cpu| {
            cpu.register_x = 0x02;
            cpu.mem_write(0x82, 0x00);
            cpu.mem_write(0x83, 0x03);
            cpu.mem_write(0x0300, 0x5a)
        }),
        "0600  A1 80     LDA ($80,X) @ 82 = 0300 = 5A"
    );
    assert_eq!(
        line(&[0xb1, 0x80], |cpu| {
            cpu.register_y = 0x10;
            cpu.mem_write(0x80, 0xf8);
            cpu.mem_write(0x81, 0x02);
            cpu.mem_write(0x0308, 0x5b)
        }),
        "0600  B1 80     LDA ($80),Y = 02F8 @ 0308 = 5B"
    );
    assert_eq!(line(&[0xd0, 0x04], |_| {}), "0600  D0 04     BNE $0606");
    assert_eq!(line(&[0xd0, 0xfc], |_| {}), "0600  D0 FC     BNE $05FE");
    assert_eq!(line(&[0x20, 0x34, 0x12], |_| {}), "0600  20 34 12  JSR $1234");
    assert_eq!(line(&[0x4c, 0x34, 0x12], |_| {}), "0600  4C 34 12  JMP $1234");
    assert_eq!(
        line(&[0xad, 0x00, 0x03], |cpu| cpu.mem_write(0x0300, 0x77)),
        "0600  AD 00 03  LDA $0300 = 77"
    );
    assert_eq!(
        line(&[0xbd, 0xff, 0x02], |cpu| {
            cpu.register_x = 1;
            cpu.mem_write(0x0300, 0x78)
        }),
        "0600  BD FF 02  LDA $02FF,X @ 0300 = 78"
    );
    assert_eq!(
        line(&[0xb9, 0x00, 0x03], |cpu| {
            cpu.register_y = 2;
            cpu.mem_write(0x0302, 0x79)
        }),
        "0600  B9 00 03  LDA $0300,Y @ 0302 = 79"
    );
    assert_eq!(
        line(&[0x6c, 0xff, 0x02], |cpu| {
            cpu.mem_write(0x02ff, 0x34);
            cpu.mem_write(0x0200, 0x12);
            cpu.mem_write(0x0300, 0x56)
        }),
        "0600  6C FF 02  JMP ($02FF) = 1234"
    );
    assert_eq!(
        line(&[0xa7, 0x10], |cpu| cpu.mem_write(0x10, 0x01)),
        "0600  A7 10    *LAX $10 = 01"
    );
    assert_eq!(line(&[0x1a], |_| {}), "0600  1A       *NOP");
}

#[test]
fn trace_has_no_line_for_an_undefined_opcode() {
    let mut cpu = CPU::new(Bus::new(create_test_cartridge()));
    cpu.mem_write(0x0600, 0x02);
    cpu.program_counter = 0x0600;
    assert!(trace(&mut cpu).is_none());
}

#[test]
fn trace_pads_scanline_and_dot() {
    let mut cpu = CPU::new(Bus::new(create_test_cartridge()));
    cpu.mem_write(0x0600, 0xea);
    cpu.program_counter = 0x0600;
    cpu.bus.ppu.scanline = 261;
    cpu.bus.ppu.cycles = 5;
    cpu.bus.cycles = 123456;
    cpu.status.set(0x80, true);
    cpu.stack_pointer = 0x0a;
    let text = trace(&mut cpu).unwrap();
    assert_eq!(
        text,
        "0600  EA        NOP                             A:00 X:00 Y:00 P:A4 SP:0A PPU:261,  5 CYC:123456"
    );
}

#[test]
fn numbers_as_text() {
    assert_eq!(hex_string(0, 2), "00");
    assert_eq!(hex_string(0xab, 2), "AB");
    assert_eq!(hex_string(0x5, 4), "0005");
    assert_eq!(hex_string(0x1234, 2), "1234");
    assert_eq!(hex_string(0x10080, 4), "10080");
    assert_eq!(hex_string(0, 0), "0");
    assert_eq!(decimal_string(0), "0");
    assert_eq!(decimal_string(9), "9");
    assert_eq!(decimal_string(340), "340");
    assert_eq!(decimal_string(1234567), "1234567");
}

#[test]
fn debug_read_changes_nothing() {
    let mut bus = Bus::new(create_test_cartridge());
    bus.mem_write(0x0123, 0x45);
    bus.mem_write(0x6001, 0x67);
    bus.mem_write(0x2000, 0x84);
    bus.mem_write(0x2001, 0x1e);
    bus.mem_write(0x2003, 0x05);
    bus.mem_write(0x2004, 0x99);
    bus.mem_write(0x2003, 0x05);
    bus.mem_write(0x2006, 0x21);
    bus.mem_write(0x2006, 0x08);
    bus.ppu.status.set(0x80, true);
    bus.joypad.button_status.set(JoypadButton::UP, true);
    assert_eq!(bus.mem_read_debug(0x0923), 0x45);
    assert_eq!(bus.mem_read_debug(0x6001), 0x67);
    assert_eq!(bus.mem_read_debug(0x8000), 0x00);
    assert_eq!(bus.mem_read_debug(0x2000), 0x84);
    assert_eq!(bus.mem_read_debug(0x2001), 0x1e);
    assert_eq!(bus.mem_read_debug(0x2002), 0x80);
    assert_eq!(bus.mem_read_debug(0x2002), 0x80);
    assert_eq!(bus.mem_read_debug(0x2003), 0x05);
    assert_eq!(bus.mem_read_debug(0x2004), 0x99);
    assert_eq!(bus.mem_read_debug(0x2005), 42);
    assert_eq!(bus.mem_read_debug(0x2006), 0x2108);
    assert_eq!(bus.mem_read_debug(0x2007), 42);
    assert_eq!(bus.mem_read_debug(0x2008), 42);
    assert_eq!(bus.mem_read_debug(0x3fff), 42);
    assert_eq!(bus.mem_read_debug(0x4014), 42);
    assert_eq!(bus.mem_read_debug(0x4016), 0x10);
    assert_eq!(bus.mem_read_debug(0x4017), 0);
    assert_eq!(bus.ppu.ppu_addr.get(), 0x2108);
    assert!(bus.fault.is_none());
}

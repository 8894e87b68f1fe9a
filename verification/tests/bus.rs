use nes_rs::bus::model::BusFault;
use nes_rs::bus::Bus;
use nes_rs::cartridge::{create_test_cartridge, Cartridge, Mirroring};
use nes_rs::cpu::Mem;
use nes_rs::joypad::JoypadButton;
use nes_rs::ppu::registers::status::PPUSTATUS;

fn cartridge_with(prg_rom: Vec<u8>) -> Cartridge {
    Cartridge {
        prg_rom,
        chr_rom: vec![0; 8192],
        mapper: 0,
        screen_mirroring: Mirroring::Horizontal,
    }
}

#[test]
fn work_ram_is_mirrored_four_times() {
    let mut bus = Bus::new(create_test_cartridge());
    for (addr, value) in [(0x0000u16, 0x11u8), (0x07ff, 0x22), (0x0123, 0x33), (0x1abc, 0x44)] {
        bus.mem_write(addr, value);
        let cell = addr % 0x0800;
        assert_eq!(bus.mem_read(cell), value);
        assert_eq!(bus.mem_read(cell + 0x0800), value);
        assert_eq!(bus.mem_read(cell + 0x1000), value);
        assert_eq!(bus.mem_read(cell + 0x1800), value);
        assert_eq!(bus.cpu_wram[cell as usize], value);
    }
    assert!(bus.fault.is_none());
}

#[test]
fn every_work_ram_address_reads_back_at_its_mirrors() {
    let mut bus = Bus::new(create_test_cartridge());
    for addr in 0..0x0800u16 {
        let value = (addr % 251) as u8 + 1;
        bus.mem_write(addr + 0x1000, value);
        assert_eq!(bus.mem_read(addr), value);
        assert_eq!(bus.mem_read(addr + 0x0800), value);
        assert_eq!(bus.mem_read(addr + 0x1000), value);
        assert_eq!(bus.mem_read(addr + 0x1800), value);
    }
}

#[test]
fn bus_starts_at_cycle_seven() {
    let bus = Bus::default(create_test_cartridge());
    assert_eq!(bus.cycles, 7);
    assert_eq!((bus.ppu.scanline, bus.ppu.cycles), (0, 21));
    assert!(bus.fault.is_none());
}

#[test]
fn tick_runs_three_dots_per_cycle() {
    let mut bus = Bus::new(create_test_cartridge());
    assert!(!bus.tick(2));
    assert_eq!(bus.cycles, 9);
    assert_eq!((bus.ppu.scanline, bus.ppu.cycles), (0, 27));
    assert!(!bus.tick(113));
    assert_eq!(bus.cycles, 122);
    assert_eq!((bus.ppu.scanline, bus.ppu.cycles), (1, 25));
}

#[test]
fn tick_reports_the_interrupt_once() {
    let mut bus = Bus::new(create_test_cartridge());
    bus.mem_write(0x2000, 0x80);
    bus.ppu.scanline = 240;
    bus.ppu.cycles = 339;
    assert!(bus.tick(1));
    assert!(!bus.tick(1));
    assert_eq!(bus.pull_nmi_status(), Some(1));
    assert_eq!(bus.pull_nmi_status(), None);
    assert!(!bus.tick(1));
}

#[test]
fn ppu_address_register_through_the_bus() {
    let mut bus = Bus::new(create_test_cartridge());
    bus.mem_write(0x2006, 0x00);
    bus.mem_write(0x2006, 0x01);
    assert_eq!(bus.ppu.ppu_addr.get(), 0x0001);
    bus.mem_write(0x2006, 0x3f);
    bus.mem_read(0x2002);
    bus.mem_write(0x2006, 0x21);
    bus.mem_write(0x2006, 0x08);
    assert_eq!(bus.ppu.ppu_addr.get(), 0x2108);
    assert!(bus.fault.is_none());
}

#[test]
fn ppu_registers_are_mirrored_every_eight_bytes() {
    let mut bus = Bus::new(create_test_cartridge());
    bus.mem_write(0x3ffe, 0x23);
    bus.mem_write(0x200e, 0x05);
    bus.mem_write(0x2f0f, 0x66);
    assert_eq!(bus.ppu.vram[0x0305], 0x66);
    bus.mem_write(0x2008, 0b100);
    assert_eq!(bus.ppu.controller.bits(), 0b100);
    bus.mem_write(0x3001, 0x1e);
    assert_eq!(bus.ppu.ppu_mask.bits(), 0x1e);
    bus.ppu.status.set(PPUSTATUS::VBLANK_STARTED, true);
    assert_eq!(bus.mem_read(0x3ffa), 0x80);
    assert_eq!(bus.mem_read(0x2002), 0x00);
}

#[test]
fn ppu_data_port_through_the_bus() {
    let mut bus = Bus::new(create_test_cartridge());
    bus.mem_write(0x2006, 0x20);
    bus.mem_write(0x2006, 0x10);
    bus.mem_write(0x2007, 0xaa);
    bus.mem_write(0x2007, 0xbb);
    bus.mem_write(0x2006, 0x20);
    bus.mem_write(0x2006, 0x10);
    assert_eq!(bus.mem_read(0x2007), 0x00);
    assert_eq!(bus.mem_read(0x2007), 0xaa);
    assert_eq!(bus.mem_read(0x2007), 0xbb);
}

#[test]
fn oam_registers_through_the_bus() {
    let mut bus = Bus::new(create_test_cartridge());
    bus.mem_write(0x2003, 0x10);
    bus.mem_write(0x2004, 0x66);
    bus.mem_write(0x2004, 0x77);
    bus.mem_write(0x2003, 0x10);
    assert_eq!(bus.mem_read(0x2004), 0x66);
    assert_eq!(bus.ppu.oam_data[0x11], 0x77);
    bus.mem_write(0x2005, 0x12);
    bus.mem_write(0x2005, 0x34);
    assert_eq!(bus.ppu.ppu_scroll.scroll_x, 0x12);
    assert_eq!(bus.ppu.ppu_scroll.scroll_y, 0x34);
}

#[test]
fn oam_dma_copies_a_page() {
    let mut bus = Bus::new(create_test_cartridge());
    for i in 0..256u16 {
        bus.mem_write(0x0200 + i, (255 - i) as u8);
    }
    bus.mem_write(0x2003, 0x04);
    bus.mem_write(0x4014, 0x02);
    assert_eq!(bus.ppu.oam_addr, 0x04);
    assert_eq!(bus.ppu.oam_data[0x04], 255);
    assert_eq!(bus.ppu.oam_data[0x05], 254);
    assert_eq!(bus.ppu.oam_data[0x03], 0);
    assert_eq!(bus.cycles, 7);
    assert!(bus.fault.is_none());
}

#[test]
fn oam_dma_from_a_mirror_of_work_ram() {
    let mut bus = Bus::new(create_test_cartridge());
    bus.mem_write(0x0300, 0x42);
    bus.mem_write(0x4014, 0x0b);
    assert_eq!(bus.ppu.oam_data[0], 0x42);
}

#[test]
fn joypad_through_the_bus() {
    let mut bus = Bus::new(create_test_cartridge());
    bus.joypad.button_status.set(JoypadButton::BUTTON_B, true);
    bus.mem_write(0x4016, 1);
    bus.mem_write(0x4016, 0);
    assert_eq!(bus.mem_read(0x4016), 0);
    assert_eq!(bus.mem_read(0x4016), 1);
    assert_eq!(bus.mem_read(0x4016), 0);
}

#[test]
fn cartridge_ram_reads_back() {
    let mut bus = Bus::new(create_test_cartridge());
    bus.mem_write(0x6000, 0x12);
    bus.mem_write(0x7fff, 0x34);
    assert_eq!(bus.mem_read(0x6000), 0x12);
    assert_eq!(bus.mem_read(0x7fff), 0x34);
    assert_eq!(bus.read_prg_ram(0x7fff), 0x34);
}

#[test]
fn small_program_shows_twice() {
    let mut prg = vec![0u8; 0x4000];
    prg[0x0000] = 0xa1;
    prg[0x3ffc] = 0xc2;
    let mut bus = Bus::new(cartridge_with(prg));
    assert_eq!(bus.mem_read(0x8000), 0xa1);
    assert_eq!(bus.mem_read(0xc000), 0xa1);
    assert_eq!(bus.mem_read(0xbffc), 0xc2);
    assert_eq!(bus.mem_read(0xfffc), 0xc2);
    assert_eq!(bus.read_prg_rom(0xfffc), 0xc2);
}

#[test]
fn large_program_fills_the_window() {
    let mut prg = vec![0u8; 0x8000];
    prg[0x0000] = 0xa1;
    prg[0x4000] = 0xb2;
    prg[0x7ffc] = 0xc3;
    let mut bus = Bus::new(cartridge_with(prg));
    assert_eq!(bus.mem_read(0x8000), 0xa1);
    assert_eq!(bus.mem_read(0xc000), 0xb2);
    assert_eq!(bus.mem_read(0xfffc), 0xc3);
}

#[test]
fn words_are_little_endian() {
    let mut bus = Bus::new(create_test_cartridge());
    bus.mem_write_u16(0x0010, 0xbeef);
    assert_eq!(bus.mem_read(0x0010), 0xef);
    assert_eq!(bus.mem_read(0x0011), 0xbe);
    assert_eq!(bus.mem_read_u16(0x0010), 0xbeef);
    let mut prg = vec![0u8; 0x8000];
    prg[0x7fff] = 0x34;
    let mut bus = Bus::new(cartridge_with(prg));
    bus.mem_write(0x0000, 0x12);
    // The high byte of the word at 0xffff comes from address 0.
    assert_eq!(bus.mem_read_u16(0xffff), 0x1234);
}

#[test]
fn unmapped_addresses_read_zero_and_ignore_writes() {
    let mut bus = Bus::new(create_test_cartridge());
    for addr in [0x4000u16, 0x4013, 0x4015, 0x4017, 0x4020, 0x5fff] {
        bus.mem_write(addr, 0xff);
        assert_eq!(bus.mem_read(addr), 0);
    }
    assert!(bus.fault.is_none());
}

#[test]
fn reading_a_write_only_register_is_a_fault() {
    for addr in [0x2000u16, 0x2001, 0x2003, 0x2005, 0x2006, 0x4014, 0x3ff8] {
        let mut bus = Bus::new(create_test_cartridge());
        assert_eq!(bus.mem_read(addr), 0);
        assert_eq!(bus.fault, Some(BusFault::WriteOnly(addr)));
    }
}

#[test]
fn writing_status_or_program_is_a_fault() {
    let mut bus = Bus::new(create_test_cartridge());
    bus.mem_write(0x2002, 0xff);
    assert_eq!(bus.ppu.status.bits(), 0);
    assert_eq!(bus.fault, Some(BusFault::ReadOnly(0x2002)));
    // The first fault is kept.
    bus.mem_write(0x8000, 0xff);
    assert_eq!(bus.fault, Some(BusFault::ReadOnly(0x2002)));
    assert_eq!(bus.take_fault(), Some(BusFault::ReadOnly(0x2002)));
    assert_eq!(bus.fault, None);
    bus.mem_write(0x8000, 0xff);
    assert_eq!(bus.mem_read(0x8000), 0);
    assert_eq!(bus.take_fault(), Some(BusFault::ReadOnly(0x8000)));
}

#[test]
fn data_port_without_storage_is_a_fault() {
    let mut bus = Bus::new(create_test_cartridge());
    bus.mem_write(0x2006, 0x30);
    bus.mem_write(0x2006, 0x40);
    assert_eq!(bus.mem_read(0x2007), 0);
    assert_eq!(bus.take_fault(), Some(BusFault::Video(0x3040)));
    assert_eq!(bus.ppu.ppu_addr.get(), 0x3040);
    bus.mem_write(0x2007, 0x55);
    assert_eq!(bus.take_fault(), Some(BusFault::Video(0x3040)));
    assert_eq!(bus.ppu.ppu_addr.get(), 0x3040);
}

use nes_rs::cartridge::Mirroring;
use nes_rs::ppu::registers::addr::PPUADDR;
use nes_rs::ppu::registers::controller::PPUCTRL;
use nes_rs::ppu::registers::mask::PPUMASK;
use nes_rs::ppu::registers::scroll::PPUSCROLL;
use nes_rs::ppu::registers::status::PPUSTATUS;
use nes_rs::ppu::PPU;

#[test]
fn ppu_test_ppuaddr_get_set_inc() {
    let mut ppu_addr = PPUADDR::new();
    assert_eq!(ppu_addr.get(), 0);
    ppu_addr.set(100);
    assert_eq!(ppu_addr.get(), 100);
    ppu_addr.increment(50);
    assert_eq!(ppu_addr.get(), 150);
}

#[test]
fn ppu_test_ppuaddr_update() {
    let mut ppu_addr = PPUADDR::new();
    // Write high bit
    ppu_addr.update(0b0011_0000);
    // Write low bit
    ppu_addr.update(0b1110_0000);
    assert_eq!(ppu_addr.get(), 0b0011_0000_1110_0000);
}

#[test]
fn ppu_test_ppuaddr_reset_latch() {
    let mut ppu_addr = PPUADDR::new();
    // Write high bit
    ppu_addr.update(0b0011_0010);
    ppu_addr.reset_write_latch();
    // Write to high bit (again)
    ppu_addr.update(0b0011_1001);
    assert_eq!(ppu_addr.get(), 0b0011_1001_0000_0000)
}

#[test]
fn ppu_test_ppuaddr_wraparaound() {
    let mut ppu_addr = PPUADDR::new();
    ppu_addr.update(0b1111_1111);
    ppu_addr.update(0b1111_1101);
    assert_eq!(ppu_addr.get(), 0b1111_1111_1111_1101 & 0x3fff)
}

#[test]
fn addr_test_ppuaddr_get_set_inc() {
    let mut ppu_addr = PPUADDR::new();
    assert_eq!(ppu_addr.get(), 0);
    ppu_addr.set(100);
    assert_eq!(ppu_addr.get(), 100);
    ppu_addr.increment(50);
    assert_eq!(ppu_addr.get(), 150);
}

#[test]
fn addr_test_ppuaddr_update() {
    let mut ppu_addr = PPUADDR::new();
    // Write high bit
    ppu_addr.update(0b0011_0000);
    // Write low bit
    ppu_addr.update(0b1110_0000);
    assert_eq!(ppu_addr.get(), 0b0011_0000_1110_0000);
}

#[test]
fn addr_test_ppuaddr_reset_latch() {
    let mut ppu_addr = PPUADDR::new();
    // Write high bit
    ppu_addr.update(0b0011_0010);
    ppu_addr.reset_write_latch();
    // Write to high bit (again)
    ppu_addr.update(0b0011_1001);
    assert_eq!(ppu_addr.get(), 0b0011_1001_0000_0000)
}

#[test]
fn addr_test_ppuaddr_wraparaound() {
    let mut ppu_addr = PPUADDR::new();
    ppu_addr.update(0b1111_1111);
    ppu_addr.update(0b1111_1101);
    assert_eq!(ppu_addr.get(), 0b1111_1111_1111_1101 & 0x3fff)
}

#[test]
fn test_read_status_resets_vblank() {
    let mut ppu = PPU::default();
    ppu.status.set(PPUSTATUS::VBLANK_STARTED, true);

    let status = ppu.read_status();

    assert_eq!(status >> 7, 1);
    assert_eq!(ppu.status.bits() >> 7, 0);
}

#[test]
fn ppuaddr_increment_carries_and_folds() {
    let mut ppu_addr = PPUADDR::new();
    ppu_addr.set(0x20ff);
    ppu_addr.increment(1);
    assert_eq!(ppu_addr.get(), 0x2100);
    ppu_addr.set(0x3fff);
    ppu_addr.increment(32);
    assert_eq!(ppu_addr.get(), 0x001f);
}

#[test]
fn ppuaddr_high_byte_is_folded_at_once() {
    let mut ppu_addr = PPUADDR::new();
    ppu_addr.update(0x7f);
    assert_eq!(ppu_addr.get(), 0x3f00);
}

#[test]
fn scroll_takes_x_then_y() {
    let mut scroll = PPUSCROLL::new();
    scroll.write(0x12);
    scroll.write(0x34);
    assert_eq!((scroll.scroll_x, scroll.scroll_y), (0x12, 0x34));
    scroll.write(0x56);
    assert_eq!((scroll.scroll_x, scroll.scroll_y), (0x56, 0x34));
    scroll.write(0x78);
    scroll.write(0x9a);
    scroll.reset_latch();
    scroll.write(0xbc);
    assert_eq!((scroll.scroll_x, scroll.scroll_y), (0xbc, 0x78));
}

#[test]
fn control_register_increment() {
    assert_eq!(PPUCTRL::new().vram_addr_increment(), 1);
    assert_eq!(PPUCTRL::from_bits_truncate(0b100).vram_addr_increment(), 32);
    assert_eq!(PPUCTRL::from_bits_truncate(0b1111_1011).vram_addr_increment(), 1);
    assert!(PPUCTRL::from_bits_truncate(0x80).contains(PPUCTRL::GENERATE_NMI));
    assert!(!PPUCTRL::from_bits_truncate(0x7f).contains(PPUCTRL::GENERATE_NMI));
}

#[test]
fn registers_start_clear() {
    assert_eq!(PPUCTRL::new().bits(), 0);
    assert_eq!(PPUMASK::new().bits(), 0);
    assert_eq!(PPUSTATUS::new().bits(), 0);
    assert_eq!(PPUMASK::from_bits_truncate(0x1e).bits(), 0x1e);
    assert!(PPUMASK::from_bits_truncate(0x1e).contains(PPUMASK::SHOW_SPRITES));
}

#[test]
fn status_set_and_clear() {
    let mut status = PPUSTATUS::new();
    status.set(PPUSTATUS::SPRITE_ZERO_HIT, true);
    status.set(PPUSTATUS::VBLANK_STARTED, true);
    assert_eq!(status.bits(), 0xc0);
    status.set(PPUSTATUS::SPRITE_ZERO_HIT, false);
    assert_eq!(status.bits(), 0x80);
    assert!(status.contains(PPUSTATUS::VBLANK_STARTED));
}

fn fresh(mirroring: Mirroring) -> PPU {
    PPU::new(vec![0; 8192], mirroring)
}

#[test]
fn new_ppu_starts_at_dot_21() {
    let ppu = fresh(Mirroring::Horizontal);
    assert_eq!((ppu.scanline, ppu.cycles), (0, 21));
    assert!(ppu.chr_ram.is_none());
    assert!(ppu.nmi_interrupt.is_none());
    let ppu = PPU::new(vec![], Mirroring::Vertical);
    assert_eq!(ppu.chr_ram, Some(vec![0u8; 0x2000]));
}

#[test]
fn default_ppu_has_ones_in_vram() {
    let ppu = PPU::default();
    assert!(ppu.vram.iter().all(|b| *b == 1));
    assert_eq!(ppu.chr_rom, vec![0u8]);
    assert_eq!(ppu.mirroring, Mirroring::Horizontal);
}

#[test]
fn tick_moves_to_next_scanline() {
    let mut ppu = fresh(Mirroring::Horizontal);
    assert!(!ppu.tick(319));
    assert_eq!((ppu.scanline, ppu.cycles), (0, 340));
    assert!(!ppu.tick(1));
    assert_eq!((ppu.scanline, ppu.cycles), (1, 0));
    assert!(!ppu.tick(341));
    assert_eq!((ppu.scanline, ppu.cycles), (2, 0));
}

#[test]
fn vblank_starts_on_scanline_241() {
    let mut ppu = fresh(Mirroring::Horizontal);
    ppu.scanline = 240;
    ppu.cycles = 340;
    ppu.tick(1);
    assert_eq!(ppu.scanline, 241);
    assert!(ppu.status.contains(PPUSTATUS::VBLANK_STARTED));
    assert!(ppu.nmi_interrupt.is_none());
}

#[test]
fn frame_ends_after_scanline_261() {
    let mut ppu = fresh(Mirroring::Horizontal);
    ppu.scanline = 261;
    ppu.cycles = 339;
    ppu.status.set(PPUSTATUS::VBLANK_STARTED, true);
    ppu.status.set(PPUSTATUS::SPRITE_ZERO_HIT, true);
    ppu.status.set(PPUSTATUS::SPRITE_OVERFLOW, true);
    ppu.nmi_interrupt = Some(1);
    assert!(ppu.tick(3));
    assert_eq!((ppu.scanline, ppu.cycles), (0, 1));
    assert_eq!(ppu.status.bits(), 0x20);
    assert!(ppu.nmi_interrupt.is_none());
}

#[test]
fn a_frame_of_ticks_is_a_closed_cycle() {
    let mut ppu = fresh(Mirroring::Horizontal);
    ppu.cycles = 0;
    ppu.write_to_controller(0x80);
    let mut frames = 0;
    // Ticks of three dots meet the start of a frame again after three frames.
    for _ in 0..(341 * 262) {
        if ppu.tick(3) {
            frames += 1;
        }
    }
    assert_eq!(frames, 3);
    assert_eq!((ppu.scanline, ppu.cycles), (0, 0));
    assert!(!ppu.status.contains(PPUSTATUS::VBLANK_STARTED));
    assert!(ppu.nmi_interrupt.is_none());
}

#[test]
fn a_frame_of_whole_scanlines_is_a_closed_cycle() {
    let mut ppu = fresh(Mirroring::Horizontal);
    ppu.scanline = 17;
    ppu.cycles = 5;
    for line in 0..262 {
        let complete = ppu.tick(341);
        assert_eq!(complete, line == 244);
    }
    assert_eq!((ppu.scanline, ppu.cycles), (17, 5));
    assert!(!ppu.status.contains(PPUSTATUS::VBLANK_STARTED));
    assert!(ppu.nmi_interrupt.is_none());
}

fn count_nmi_in_one_frame(enabled: bool) -> (usize, Vec<(u16, usize)>) {
    let mut ppu = fresh(Mirroring::Horizontal);
    ppu.cycles = 0;
    if enabled {
        ppu.write_to_controller(0x80);
    }
    let mut raised = 0;
    let mut at = vec![];
    // 89342 dots: 29780 ticks of three and one of two.
    for i in 0..29781 {
        let before = ppu.nmi_interrupt.is_some();
        ppu.tick(if i == 29780 { 2 } else { 3 });
        if !before && ppu.nmi_interrupt.is_some() {
            raised += 1;
            at.push((ppu.scanline, ppu.cycles));
        }
    }
    assert_eq!((ppu.scanline, ppu.cycles), (0, 0));
    (raised, at)
}

#[test]
fn nmi_rises_once_per_frame_when_enabled() {
    let (raised, at) = count_nmi_in_one_frame(true);
    assert_eq!(raised, 1);
    assert_eq!(at, vec![(241, 1)]);
}

#[test]
fn nmi_never_rises_when_disabled() {
    let (raised, _) = count_nmi_in_one_frame(false);
    assert_eq!(raised, 0);
}

#[test]
fn enabling_nmi_during_vblank_raises_it() {
    let mut ppu = fresh(Mirroring::Horizontal);
    ppu.status.set(PPUSTATUS::VBLANK_STARTED, true);
    ppu.write_to_controller(0x80);
    assert_eq!(ppu.nmi_interrupt, Some(1));
    ppu.nmi_interrupt = None;
    ppu.write_to_controller(0x80);
    assert!(ppu.nmi_interrupt.is_none());
    ppu.write_to_controller(0x00);
    ppu.status.set(PPUSTATUS::VBLANK_STARTED, false);
    ppu.write_to_controller(0x80);
    assert!(ppu.nmi_interrupt.is_none());
}

#[test]
fn address_and_scroll_share_the_write_sequence() {
    let mut ppu = fresh(Mirroring::Horizontal);
    ppu.write_to_scroll(0x11);
    // The second write of the sequence goes to the low byte of the address.
    ppu.write_to_ppu_addr(0x22);
    assert_eq!(ppu.ppu_addr.get(), 0x0022);
    assert_eq!(ppu.ppu_scroll.scroll_x, 0x11);
    ppu.write_to_ppu_addr(0x21);
    ppu.write_to_scroll(0x33);
    assert_eq!(ppu.ppu_addr.get(), 0x2122);
    assert_eq!(ppu.ppu_scroll.scroll_y, 0x33);
}

#[test]
fn status_read_restarts_the_write_sequence() {
    let mut ppu = fresh(Mirroring::Horizontal);
    ppu.write_to_ppu_addr(0x00);
    ppu.write_to_ppu_addr(0x01);
    assert_eq!(ppu.ppu_addr.get(), 0x0001);
    ppu.write_to_ppu_addr(0x21);
    ppu.read_status();
    ppu.write_to_ppu_addr(0x23);
    ppu.write_to_ppu_addr(0x45);
    assert_eq!(ppu.ppu_addr.get(), 0x2345);
}

#[test]
fn mask_write_is_kept() {
    let mut ppu = fresh(Mirroring::Horizontal);
    ppu.write_to_mask(0b0001_1000);
    assert_eq!(ppu.ppu_mask.bits(), 0b0001_1000);
}

#[test]
fn oam_data_port_advances_and_wraps() {
    let mut ppu = fresh(Mirroring::Horizontal);
    ppu.write_to_oam_addr(0xff);
    ppu.write_to_oam_data(0x66);
    ppu.write_to_oam_data(0x77);
    assert_eq!(ppu.oam_addr, 1);
    assert_eq!(ppu.oam_data[0xff], 0x66);
    assert_eq!(ppu.oam_data[0x00], 0x77);
    ppu.write_to_oam_addr(0xff);
    assert_eq!(ppu.read_oam_data(), 0x66);
    assert_eq!(ppu.oam_addr, 0xff);
}

#[test]
fn oam_dma_starts_at_the_oam_address() {
    let mut ppu = fresh(Mirroring::Horizontal);
    let mut page = [0u8; 256];
    for i in 0..256 {
        page[i] = i as u8;
    }
    ppu.write_to_oam_addr(0x10);
    ppu.write_oam_dma(&page);
    assert_eq!(ppu.oam_addr, 0x10);
    assert_eq!(ppu.oam_data[0x10], 0);
    assert_eq!(ppu.oam_data[0x11], 1);
    assert_eq!(ppu.oam_data[0xff], 0xef);
    assert_eq!(ppu.oam_data[0x00], 0xf0);
    assert_eq!(ppu.oam_data[0x0f], 0xff);
}

#[test]
fn vram_reads_are_one_behind() {
    let mut ppu = fresh(Mirroring::Horizontal);
    ppu.vram[0x0305] = 0x66;
    ppu.vram[0x0306] = 0x77;
    ppu.write_to_ppu_addr(0x23);
    ppu.write_to_ppu_addr(0x05);
    assert!(ppu.can_read_data());
    assert_eq!(ppu.read_data(), 0);
    assert_eq!(ppu.ppu_addr.get(), 0x2306);
    assert_eq!(ppu.read_data(), 0x66);
    assert_eq!(ppu.read_data(), 0x77);
}

#[test]
fn vram_reads_step_by_32() {
    let mut ppu = fresh(Mirroring::Horizontal);
    ppu.write_to_controller(0b100);
    ppu.vram[0x01ff] = 0x66;
    ppu.vram[0x01ff + 32] = 0x77;
    ppu.vram[0x01ff + 64] = 0x88;
    ppu.write_to_ppu_addr(0x21);
    ppu.write_to_ppu_addr(0xff);
    ppu.read_data();
    assert_eq!(ppu.read_data(), 0x66);
    assert_eq!(ppu.read_data(), 0x77);
    assert_eq!(ppu.read_data(), 0x88);
}

#[test]
fn pattern_reads_are_one_behind() {
    let mut chr = vec![0u8; 8192];
    chr[0x0123] = 0xab;
    let mut ppu = PPU::new(chr, Mirroring::Horizontal);
    ppu.write_to_ppu_addr(0x01);
    ppu.write_to_ppu_addr(0x23);
    assert_eq!(ppu.read_data(), 0);
    assert_eq!(ppu.read_data(), 0xab);
}

#[test]
fn palette_reads_are_immediate() {
    let mut ppu = fresh(Mirroring::Horizontal);
    ppu.palette_table[0x05] = 0x2a;
    ppu.write_to_ppu_addr(0x3f);
    ppu.write_to_ppu_addr(0x05);
    assert_eq!(ppu.read_data(), 0x2a);
    assert_eq!(ppu.ppu_addr.get(), 0x3f06);
}

#[test]
fn palette_aliases_lead_to_the_backdrop_entries() {
    let mut ppu = fresh(Mirroring::Horizontal);
    for (alias, entry, value) in
        [(0x10u8, 0x00usize, 0x31u8), (0x14, 0x04, 0x32), (0x18, 0x08, 0x33), (0x1c, 0x0c, 0x34)]
    {
        ppu.read_status();
        ppu.write_to_ppu_addr(0x3f);
        ppu.write_to_ppu_addr(alias);
        assert!(ppu.can_write_data());
        ppu.write_to_data(value);
        assert_eq!(ppu.palette_table[entry], value);
        assert_eq!(ppu.palette_table[alias as usize], 0);
        ppu.read_status();
        ppu.write_to_ppu_addr(0x3f);
        ppu.write_to_ppu_addr(alias);
        assert_eq!(ppu.read_data(), value);
    }
}

#[test]
fn data_writes_reach_vram_through_the_mirroring() {
    let mut ppu = fresh(Mirroring::Vertical);
    ppu.write_to_ppu_addr(0x28);
    ppu.write_to_ppu_addr(0x05);
    ppu.write_to_data(0x66);
    assert_eq!(ppu.vram[0x0005], 0x66);
    assert_eq!(ppu.ppu_addr.get(), 0x2806);
    let mut ppu = fresh(Mirroring::Horizontal);
    ppu.write_to_ppu_addr(0x28);
    ppu.write_to_ppu_addr(0x05);
    ppu.write_to_data(0x66);
    assert_eq!(ppu.vram[0x0405], 0x66);
}

#[test]
fn pattern_writes_need_character_ram() {
    let mut ppu = fresh(Mirroring::Horizontal);
    ppu.write_to_ppu_addr(0x01);
    ppu.write_to_ppu_addr(0x00);
    assert!(ppu.can_write_data());
    ppu.write_to_data(0x55);
    assert_eq!(ppu.chr_rom[0x0100], 0);
    assert_eq!(ppu.ppu_addr.get(), 0x0101);
    let mut ppu = PPU::new(vec![], Mirroring::Horizontal);
    ppu.write_to_ppu_addr(0x01);
    ppu.write_to_ppu_addr(0x00);
    ppu.write_to_data(0x55);
    assert_eq!(ppu.chr_ram.as_ref().unwrap()[0x0100], 0x55);
}

#[test]
fn unbacked_video_addresses_are_told_apart() {
    let mut ppu = fresh(Mirroring::Horizontal);
    ppu.write_to_ppu_addr(0x30);
    ppu.write_to_ppu_addr(0x00);
    assert!(!ppu.can_read_data());
    assert!(!ppu.can_write_data());
    ppu.read_status();
    ppu.write_to_ppu_addr(0x3f);
    ppu.write_to_ppu_addr(0x20);
    assert!(!ppu.can_read_data());
    assert!(!ppu.can_write_data());
    ppu.read_status();
    ppu.write_to_ppu_addr(0x3f);
    ppu.write_to_ppu_addr(0x1f);
    assert!(ppu.can_read_data());
    let mut ppu = fresh(Mirroring::FourScreen);
    ppu.write_to_ppu_addr(0x28);
    ppu.write_to_ppu_addr(0x00);
    assert!(!ppu.can_read_data());
    ppu.read_status();
    ppu.write_to_ppu_addr(0x27);
    ppu.write_to_ppu_addr(0xff);
    assert!(ppu.can_read_data());
    let mut ppu = PPU::default();
    ppu.write_to_ppu_addr(0x00);
    ppu.write_to_ppu_addr(0x01);
    assert!(!ppu.can_read_data());
    assert!(ppu.can_write_data());
}

#[test]
fn mirroring_folds_the_nametables() {
    let horizontal = fresh(Mirroring::Horizontal);
    assert_eq!(horizontal.mirror_vram_addr(0x2000), 0x0000);
    assert_eq!(horizontal.mirror_vram_addr(0x2400), 0x0000);
    assert_eq!(horizontal.mirror_vram_addr(0x2801), 0x0401);
    assert_eq!(horizontal.mirror_vram_addr(0x2fff), 0x07ff);
    assert_eq!(horizontal.mirror_vram_addr(0x3805), 0x0405);
    let vertical = fresh(Mirroring::Vertical);
    assert_eq!(vertical.mirror_vram_addr(0x2000), 0x0000);
    assert_eq!(vertical.mirror_vram_addr(0x2403), 0x0403);
    assert_eq!(vertical.mirror_vram_addr(0x2803), 0x0003);
    assert_eq!(vertical.mirror_vram_addr(0x2c03), 0x0403);
    let four = fresh(Mirroring::FourScreen);
    assert_eq!(four.mirror_vram_addr(0x2c03), 0x0c03);
}

#[test]
fn background_palette_follows_the_attribute_quadrant() {
    let mut ppu = fresh(Mirroring::Horizontal);
    for i in 0..32 {
        ppu.palette_table[i] = 0x20 + i as u8;
    }
    // Tiles 4..7 by 8..11 share attribute byte 2 * 8 + 1.
    ppu.vram[0x3c0 + 17] = 0b11_10_01_00;
    assert_eq!(ppu.bg_palette(4, 8), [0x20, 0x21, 0x22, 0x23]);
    assert_eq!(ppu.bg_palette(6, 9), [0x20, 0x25, 0x26, 0x27]);
    assert_eq!(ppu.bg_palette(5, 10), [0x20, 0x29, 0x2a, 0x2b]);
    assert_eq!(ppu.bg_palette(7, 11), [0x20, 0x2d, 0x2e, 0x2f]);
    assert_eq!(ppu.bg_palette(8, 8), [0x20, 0x21, 0x22, 0x23]);
}

#[test]
fn sprite_palette_starts_at_entry_17() {
    let mut ppu = fresh(Mirroring::Horizontal);
    for i in 0..32 {
        ppu.palette_table[i] = 0x20 + i as u8;
    }
    assert_eq!(ppu.sprite_palette(0), [0, 0x31, 0x32, 0x33]);
    assert_eq!(ppu.sprite_palette(3), [0, 0x3d, 0x3e, 0x3f]);
}

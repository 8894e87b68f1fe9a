use nes_rs::cartridge::Mirroring;
use nes_rs::ppu::PPU;
use nes_rs::render::frame::{Frame, PINK};
use nes_rs::render::palette::system_palette;

fn ppu_with_patterns() -> PPU {
    let mut chr = vec![0u8; 8192];
    // Tile 1 of the first table: row 0 is colours 0 1 2 3 0 0 0 0.
    chr[16] = 0b0101_0000;
    chr[16 + 8] = 0b0011_0000;
    // Tile 2 of the second table: all pixels colour 3.
    for row in 0..16 {
        chr[0x1000 + 2 * 16 + row] = 0xff;
    }
    // Tile 3 of the first table: colour 1 in the top left pixel only.
    chr[3 * 16] = 0b1000_0000;
    let mut ppu = PPU::new(chr, Mirroring::Horizontal);
    for i in 0..32 {
        ppu.palette_table[i] = i as u8;
    }
    ppu
}

#[test]
fn new_frame_is_pink() {
    let frame = Frame::new();
    assert_eq!(frame.data.len(), 256 * 240);
    assert!(frame.data.iter().all(|rgb| *rgb == (255, 109, 193)));
    assert_eq!(PINK, (255, 109, 193));
}

#[test]
fn set_pixel_counts_line_by_line() {
    let mut frame = Frame::new();
    frame.set_pixel(3, 2, (1, 2, 3));
    assert_eq!(frame.data[2 * 256 + 3], (1, 2, 3));
    assert_eq!(frame.data.iter().filter(|rgb| **rgb != PINK).count(), 1);
}

#[test]
fn system_palette_has_64_colours() {
    assert_eq!(system_palette(0x00), (0x80, 0x80, 0x80));
    assert_eq!(system_palette(0x0d), (0x00, 0x00, 0x00));
    assert_eq!(system_palette(0x20), (0xff, 0xff, 0xff));
    assert_eq!(system_palette(0x3f), (0x11, 0x11, 0x11));
    // Only six bits count.
    assert_eq!(system_palette(0x40), system_palette(0x00));
    assert_eq!(system_palette(0xff), system_palette(0x3f));
}

#[test]
fn background_uses_tile_palette_and_bank() {
    let mut ppu = ppu_with_patterns();
    // Tile 1 in column 5, row 2; its group uses palette 2 in this quadrant.
    ppu.vram[2 * 32 + 5] = 1;
    ppu.vram[0x3c0 + 1] = 0b0010_0000;
    let mut frame = Frame::new();
    Frame::render(&ppu, &mut frame);
    let row = 16 * 256 + 40;
    assert_eq!(frame.data[row], system_palette(0));
    assert_eq!(frame.data[row + 1], system_palette(9));
    assert_eq!(frame.data[row + 2], system_palette(10));
    assert_eq!(frame.data[row + 3], system_palette(11));
    assert_eq!(frame.data[row + 4], system_palette(0));
    assert_eq!(frame.data[row + 256], system_palette(0));
    assert_eq!(frame.data[0], system_palette(0));
    assert_eq!(frame.data[256 * 240 - 1], system_palette(0));
    // With the background in the second table, tile 1 is empty there.
    ppu.write_to_controller(0b0001_0000);
    Frame::render(&ppu, &mut frame);
    assert_eq!(frame.data[row + 1], system_palette(0));
}

#[test]
fn sprites_are_drawn_over_the_background() {
    let mut ppu = ppu_with_patterns();
    // Sprite 0: tile 3 at line 10, column 20, palette 1.
    ppu.oam_data[0] = 10;
    ppu.oam_data[1] = 3;
    ppu.oam_data[2] = 0b0000_0001;
    ppu.oam_data[3] = 20;
    let mut frame = Frame::new();
    Frame::render(&ppu, &mut frame);
    assert_eq!(frame.data[10 * 256 + 20], system_palette(0x15));
    assert_eq!(frame.data[10 * 256 + 21], system_palette(0));
    assert_eq!(frame.data[11 * 256 + 20], system_palette(0));
}

#[test]
fn sprites_can_be_flipped() {
    let mut ppu = ppu_with_patterns();
    ppu.oam_data[0] = 10;
    ppu.oam_data[1] = 3;
    ppu.oam_data[2] = 0b0100_0000;
    ppu.oam_data[3] = 20;
    ppu.oam_data[4] = 30;
    ppu.oam_data[5] = 3;
    ppu.oam_data[6] = 0b1000_0000;
    ppu.oam_data[7] = 20;
    ppu.oam_data[8] = 50;
    ppu.oam_data[9] = 3;
    ppu.oam_data[10] = 0b1100_0010;
    ppu.oam_data[11] = 20;
    let mut frame = Frame::new();
    Frame::render(&ppu, &mut frame);
    assert_eq!(frame.data[10 * 256 + 27], system_palette(0x11));
    assert_eq!(frame.data[10 * 256 + 20], system_palette(0));
    assert_eq!(frame.data[37 * 256 + 20], system_palette(0x11));
    assert_eq!(frame.data[30 * 256 + 20], system_palette(0));
    assert_eq!(frame.data[57 * 256 + 27], system_palette(0x19));
}

#[test]
fn later_sprites_cover_earlier_ones() {
    let mut ppu = ppu_with_patterns();
    ppu.write_to_controller(0b0000_1000);
    // Two sprites of tile 2 of the second table, one pixel apart.
    ppu.oam_data[0] = 100;
    ppu.oam_data[1] = 2;
    ppu.oam_data[2] = 0;
    ppu.oam_data[3] = 100;
    ppu.oam_data[252] = 101;
    ppu.oam_data[253] = 2;
    ppu.oam_data[254] = 3;
    ppu.oam_data[255] = 101;
    let mut frame = Frame::new();
    Frame::render(&ppu, &mut frame);
    assert_eq!(frame.data[100 * 256 + 100], system_palette(0x13));
    assert_eq!(frame.data[101 * 256 + 100], system_palette(0x13));
    assert_eq!(frame.data[101 * 256 + 101], system_palette(0x1f));
    assert_eq!(frame.data[108 * 256 + 108], system_palette(0x1f));
    assert_eq!(frame.data[109 * 256 + 108], system_palette(0));
}

#[test]
fn sprites_below_the_picture_are_dropped() {
    let mut ppu = ppu_with_patterns();
    ppu.write_to_controller(0b0000_1000);
    for sprite in 0..64 {
        ppu.oam_data[sprite * 4] = 0xf0;
        ppu.oam_data[sprite * 4 + 1] = 2;
        ppu.oam_data[sprite * 4 + 3] = 0xf8;
    }
    ppu.oam_data[0] = 236;
    let mut frame = Frame::new();
    Frame::render(&ppu, &mut frame);
    // Four lines of sprite 0 are inside the picture.
    assert_eq!(frame.data[236 * 256 + 248], system_palette(0x13));
    assert_eq!(frame.data[239 * 256 + 255], system_palette(0x13));
    assert_eq!(frame.data.len(), 256 * 240);
    assert_eq!(frame.data[235 * 256 + 248], system_palette(0));
}

#[test]
fn picture_of_a_tile_bank() {
    let mut chr = vec![0u8; 8192];
    // Tile 21 of the first table: first plane set in the top left pixel.
    chr[21 * 16] = 0b1000_0000;
    // Tile 254 of the second table: second plane set in the bottom right.
    chr[0x1000 + 254 * 16 + 15] = 0b0000_0001;
    let frame = Frame::show_tile_bank(&chr, 0);
    assert_eq!(frame.data[10 * 256 + 10], system_palette(2));
    assert_eq!(frame.data[10 * 256 + 11], system_palette(0));
    assert_eq!(frame.data[8 * 256 + 10], PINK);
    assert_eq!(frame.data[10 * 256 + 8], PINK);
    assert_eq!(frame.data[0], system_palette(0));
    assert_eq!(frame.data[200], PINK);
    let frame = Frame::show_tile_bank(&chr, 1);
    assert_eq!(frame.data[127 * 256 + 147], system_palette(1));
    assert_eq!(frame.data[120 * 256 + 150], PINK);
    assert_eq!(frame.data[10 * 256 + 10], system_palette(0));
}

#[test]
fn picture_of_one_tile() {
    let mut chr = vec![0u8; 8192];
    chr[0x1000 + 5 * 16 + 2] = 0b0100_0000;
    chr[0x1000 + 5 * 16 + 10] = 0b0100_0000;
    let frame = Frame::show_tile(&chr, 1, 5);
    assert_eq!(frame.data[2 * 256 + 1], system_palette(3));
    assert_eq!(frame.data[2 * 256 + 0], system_palette(0));
    assert_eq!(frame.data[8], PINK);
    assert_eq!(frame.data[8 * 256], PINK);
}

#[test]
fn fetch_tile_uses_character_ram_when_there_is_no_rom() {
    let mut ppu = PPU::new(vec![], Mirroring::Horizontal);
    ppu.write_to_ppu_addr(0x10);
    ppu.write_to_ppu_addr(0x25);
    ppu.write_to_data(0x99);
    let tile = Frame::fetch_tile(&ppu, 0x1000, 2);
    assert_eq!(tile.len(), 16);
    assert_eq!(tile[5], 0x99);
    let mut chr = vec![0u8; 8192];
    chr[3 * 16 + 7] = 0x77;
    let ppu = PPU::new(chr, Mirroring::Horizontal);
    assert_eq!(Frame::fetch_tile(&ppu, 0, 3)[7], 0x77);
}

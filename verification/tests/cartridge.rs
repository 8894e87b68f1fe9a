use nes_rs::cartridge::{create_test_cartridge, Cartridge, Mirroring};

fn image(flags6: u8, flags7: u8, prg_pages: u8, chr_pages: u8, trainer: bool) -> Vec<u8> {
    let mut raw = vec![0x4E, 0x45, 0x53, 0x1A, prg_pages, chr_pages, flags6, flags7];
    raw.extend_from_slice(&[0; 8]);
    if trainer {
        raw.extend_from_slice(&[0xEE; 512]);
    }
    for page in 0..prg_pages {
        raw.extend_from_slice(&[0x10 + page; 16384]);
    }
    for page in 0..chr_pages {
        raw.extend_from_slice(&[0x80 + page; 8192]);
    }
    raw
}

#[test]
fn test_invalid_ines_identifier() {
    let raw_data = vec![
        // Incorrect iNES header
        0x00, 0x00, 0x00, 0x00, // Invalid NES<EOF>
        0x02, 0x01, 0x00, 0x00, 0x00, 0x00, 0x00, 0x00, 0x00, 0x00, 0x00, 0x00, 0x00, 0x00,
    ];

    let result = Cartridge::new(&raw_data);
    assert!(result.is_err());
    assert_eq!(result.err().unwrap(), "File is not in iNES file format");
}

#[test]
fn test_unsupported_nes_version() {
    let raw_data = vec![
        // iNES header with NES2.0 version
        0x4E, 0x45, 0x53, 0x1A, // NES<EOF>
        0x02, 0x01, 0x00, 0x08, // NES2.0 version (set bits in flags 7)
        0x00, 0x00, 0x00, 0x00, 0x00, 0x00, 0x00, 0x00,
    ];

    let result = Cartridge::new(&raw_data);
    assert!(result.is_err());
    assert_eq!(result.err().unwrap(), "NES2.0 format is not supported");
}

#[test]
fn version_bit_two_alone_is_rejected() {
    let raw = vec![0x4E, 0x45, 0x53, 0x1A, 0x01, 0x01, 0x00, 0x04];
    assert_eq!(Cartridge::new(&raw).err().unwrap(), "NES2.0 format is not supported");
}

#[test]
fn wrong_magic_is_reported_before_the_version() {
    let raw = vec![0x4E, 0x45, 0x53, 0x1B, 0x01, 0x01, 0x00, 0x0C];
    assert_eq!(Cartridge::new(&raw).err().unwrap(), "File is not in iNES file format");
}

#[test]
fn header_fields_are_read() {
    let raw = image(0x31, 0x40, 2, 1, false);
    let cartridge = Cartridge::new(&raw).unwrap();
    assert_eq!(cartridge.mapper, 0x43);
    assert_eq!(cartridge.screen_mirroring, Mirroring::Vertical);
    assert_eq!(cartridge.prg_rom.len(), 32768);
    assert_eq!(cartridge.chr_rom.len(), 8192);
    assert_eq!(cartridge.prg_rom[0], 0x10);
    assert_eq!(cartridge.prg_rom[16384], 0x11);
    assert_eq!(cartridge.chr_rom[0], 0x80);
    assert_eq!(cartridge.chr_rom[8191], 0x80);
}

#[test]
fn mirroring_follows_bits_zero_and_three() {
    assert_eq!(
        Cartridge::new(&image(0x00, 0, 1, 1, false)).unwrap().screen_mirroring,
        Mirroring::Horizontal
    );
    assert_eq!(
        Cartridge::new(&image(0x01, 0, 1, 1, false)).unwrap().screen_mirroring,
        Mirroring::Vertical
    );
    assert_eq!(
        Cartridge::new(&image(0x08, 0, 1, 1, false)).unwrap().screen_mirroring,
        Mirroring::FourScreen
    );
    assert_eq!(
        Cartridge::new(&image(0x09, 0, 1, 1, false)).unwrap().screen_mirroring,
        Mirroring::FourScreen
    );
}

#[test]
fn trainer_is_skipped() {
    let raw = image(0x04, 0, 1, 1, true);
    let cartridge = Cartridge::new(&raw).unwrap();
    assert_eq!(cartridge.prg_rom.len(), 16384);
    assert!(cartridge.prg_rom.iter().all(|b| *b == 0x10));
    assert!(cartridge.chr_rom.iter().all(|b| *b == 0x80));
}

#[test]
fn no_character_pages_gives_empty_character_rom() {
    let cartridge = Cartridge::new(&image(0, 0, 1, 0, false)).unwrap();
    assert_eq!(cartridge.chr_rom.len(), 0);
    assert_eq!(cartridge.prg_rom.len(), 16384);
}

#[test]
fn default_cartridge_is_empty() {
    let cartridge = Cartridge::default();
    assert_eq!(cartridge.prg_rom, vec![0u8; 32768]);
    assert_eq!(cartridge.chr_rom, vec![0u8; 8192]);
    assert_eq!(cartridge.mapper, 0);
    assert_eq!(cartridge.screen_mirroring, Mirroring::Horizontal);
}

#[test]
fn test_cartridge_has_mapper_three() {
    let cartridge = create_test_cartridge();
    assert_eq!(cartridge.prg_rom, vec![0u8; 32768]);
    assert_eq!(cartridge.chr_rom, vec![0u8; 8192]);
    assert_eq!(cartridge.mapper, 3);
    assert_eq!(cartridge.screen_mirroring, Mirroring::Vertical);
}

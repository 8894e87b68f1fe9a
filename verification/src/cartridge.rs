//! The iNES cartridge container: a 16-byte header, an optional 512-byte
//! trainer, the program ROM and the character ROM.

use vstd::prelude::*;
use vstd::slice::{slice_subrange, slice_to_vec};

verus! {

/// Size of one program-ROM page.
pub const PRG_ROM_PAGE_SIZE: usize = 16384;

/// Size of one character-ROM page.
pub const CHR_ROM_PAGE_SIZE: usize = 8192;

/// Size of the header that starts every image.
pub const HEADER_SIZE: usize = 16;

/// Size of the trainer that may stand between header and program ROM.
pub const TRAINER_SIZE: usize = 512;

/// How the four logical nametables share the two physical ones.
#[derive(Debug, Clone, Copy, PartialEq, Eq, Structural)]
pub enum Mirroring {
    Vertical,
    Horizontal,
    FourScreen,
}

/// The contents of a cartridge.
pub struct Cartridge {
    pub prg_rom: Vec<u8>,
    pub chr_rom: Vec<u8>,
    pub mapper: u8,
    pub screen_mirroring: Mirroring,
}

/// The image starts with the bytes `N`, `E`, `S`, end-of-file.
pub open spec fn has_magic(raw: Seq<u8>) -> bool {
    &&& raw.len() >= 4
    &&& raw[0] == 0x4E
    &&& raw[1] == 0x45
    &&& raw[2] == 0x53
    &&& raw[3] == 0x1A
}

/// Bits 2 and 3 of byte 7: zero for the first version of the format.
pub open spec fn format_version(raw: Seq<u8>) -> int {
    (raw[7] as int / 4) % 4
}

/// Bit 2 of byte 6: a trainer precedes the program ROM.
pub open spec fn has_trainer(raw: Seq<u8>) -> bool {
    (raw[6] as int / 4) % 2 == 1
}

/// Bit 3 of byte 6 selects four-screen mirroring whatever bit 0 says;
/// otherwise bit 0 selects vertical over horizontal mirroring.
pub open spec fn header_mirroring(raw: Seq<u8>) -> Mirroring {
    if (raw[6] as int / 8) % 2 == 1 {
        Mirroring::FourScreen
    } else if raw[6] as int % 2 == 1 {
        Mirroring::Vertical
    } else {
        Mirroring::Horizontal
    }
}

/// The mapper number: high nibble from byte 7, low nibble from the high
/// nibble of byte 6.
pub open spec fn header_mapper(raw: Seq<u8>) -> int {
    (raw[7] as int / 16) * 16 + raw[6] as int / 16
}

/// Offset of the program ROM.
pub open spec fn prg_rom_start(raw: Seq<u8>) -> int {
    HEADER_SIZE as int + if has_trainer(raw) { TRAINER_SIZE as int } else { 0 }
}

/// Length of the program ROM, from byte 4.
pub open spec fn prg_rom_size(raw: Seq<u8>) -> int {
    raw[4] as int * PRG_ROM_PAGE_SIZE as int
}

/// Offset of the character ROM.
pub open spec fn chr_rom_start(raw: Seq<u8>) -> int {
    prg_rom_start(raw) + prg_rom_size(raw)
}

/// Length of the character ROM, from byte 5.
pub open spec fn chr_rom_size(raw: Seq<u8>) -> int {
    raw[5] as int * CHR_ROM_PAGE_SIZE as int
}

/// The image holds every byte that reading it touches: the magic, then,
/// where the magic is right, the header fields, then, where the version is
/// supported, everything the header announces.
pub open spec fn image_complete(raw: Seq<u8>) -> bool {
    &&& raw.len() >= 4
    &&& has_magic(raw) ==> raw.len() >= 8
    &&& has_magic(raw) && format_version(raw) == 0 ==> raw.len() >= chr_rom_start(raw)
        + chr_rom_size(raw)
}

/// An all-zero sequence.
pub open spec fn zeros(n: nat) -> Seq<u8> {
    Seq::new(n, |i: int| 0u8)
}

proof fn lemma_header_bits(b6: u8, b7: u8)
    by (bit_vector)
    ensures
        (b6 & 0b100 == 0b100) == ((b6 / 4) % 2 == 1),
        (b6 & 0b1000 != 0) == ((b6 / 8) % 2 == 1),
        (b6 & 0b1 != 0) == (b6 % 2 == 1),
        ((b7 >> 2) & 0b11) == (b7 / 4) % 4,
        ((b7 & 0b1111_0000) | (b6 >> 4)) == (b7 / 16) * 16 + b6 / 16,
{
}

/// Whether the image holds every byte that reading it touches.
pub fn image_is_complete(raw: &[u8]) -> (complete: bool)
    ensures
        complete == image_complete(raw@),
{
    if raw.len() < 4 {
        return false;
    }
    if raw[0] != 0x4E || raw[1] != 0x45 || raw[2] != 0x53 || raw[3] != 0x1A {
        return true;
    }
    if raw.len() < 8 {
        return false;
    }
    proof {
        lemma_header_bits(raw[6], raw[7]);
    }
    if (raw[7] >> 2) & 0b11 != 0 {
        return true;
    }
    let trainer = raw[6] & 0b100 == 0b100;
    let size = HEADER_SIZE + (if trainer {
        TRAINER_SIZE
    } else {
        0
    }) + raw[4] as usize * PRG_ROM_PAGE_SIZE + raw[5] as usize * CHR_ROM_PAGE_SIZE;
    raw.len() >= size
}

impl Cartridge {
    /// Reads a cartridge out of an iNES image.
    ///
    /// Fails on a wrong magic and on a version other than the first; in both
    /// cases nothing behind the header has been looked at.
    pub fn new(raw: &[u8]) -> (r: Result<Cartridge, String>)
        requires
            image_complete(raw@),
        ensures
            r is Ok <==> has_magic(raw@) && format_version(raw@) == 0,
            r matches Err(e) ==> e@ == (if has_magic(raw@) {
                "NES2.0 format is not supported"@
            } else {
                "File is not in iNES file format"@
            }),
            r matches Ok(c) ==> {
                &&& c.prg_rom@ == raw@.subrange(prg_rom_start(raw@), chr_rom_start(raw@))
                &&& c.chr_rom@ == raw@.subrange(
                    chr_rom_start(raw@),
                    chr_rom_start(raw@) + chr_rom_size(raw@),
                )
                &&& c.mapper == header_mapper(raw@)
                &&& c.screen_mirroring == header_mirroring(raw@)
            },
    {
        if raw[0] != 0x4E || raw[1] != 0x45 || raw[2] != 0x53 || raw[3] != 0x1A {
            return Err("File is not in iNES file format".to_string());
        }
        let prg_rom_size = raw[4] as usize * PRG_ROM_PAGE_SIZE;
        let chr_rom_size = raw[5] as usize * CHR_ROM_PAGE_SIZE;

        proof {
            lemma_header_bits(raw[6], raw[7]);
        }
        let trainer = raw[6] & 0b100 == 0b100;
        let four_screen = raw[6] & 0b1000 != 0;
        let vertical_mirroring = raw[6] & 0b1 != 0;
        let screen_mirroring = if four_screen {
            Mirroring::FourScreen
        } else if vertical_mirroring {
            Mirroring::Vertical
        } else {
            Mirroring::Horizontal
        };

        let mapper = (raw[7] & 0b1111_0000) | (raw[6] >> 4);

        let ines_ver = (raw[7] >> 2) & 0b11;
        if ines_ver != 0 {
            return Err("NES2.0 format is not supported".to_string());
        }
        let prg_rom_start = HEADER_SIZE + if trainer { TRAINER_SIZE } else { 0 };
        let chr_rom_start = prg_rom_start + prg_rom_size;

        Ok(
            Cartridge {
                prg_rom: slice_to_vec(slice_subrange(raw, prg_rom_start, chr_rom_start)),
                chr_rom: slice_to_vec(
                    slice_subrange(raw, chr_rom_start, chr_rom_start + chr_rom_size),
                ),
                mapper,
                screen_mirroring,
            },
        )
    }

    /// A cartridge of two empty program pages and one empty character page.
    pub fn default() -> (c: Cartridge)
        ensures
            c.prg_rom@ == zeros(2 * PRG_ROM_PAGE_SIZE as nat),
            c.chr_rom@ == zeros(CHR_ROM_PAGE_SIZE as nat),
            c.mapper == 0,
            c.screen_mirroring == Mirroring::Horizontal,
    {
        Cartridge {
            prg_rom: vec![0u8; 2 * PRG_ROM_PAGE_SIZE],
            chr_rom: vec![0u8; CHR_ROM_PAGE_SIZE],
            mapper: 0,
            screen_mirroring: Mirroring::Horizontal,
        }
    }
}

/// A cartridge read from an image of two empty program pages and one empty
/// character page, whose header names mapper 3 and vertical mirroring. Its
/// reset vector is zero: set the program counter by hand.
pub fn create_test_cartridge() -> (c: Cartridge)
    ensures
        c.prg_rom@ == zeros(2 * PRG_ROM_PAGE_SIZE as nat),
        c.chr_rom@ == zeros(CHR_ROM_PAGE_SIZE as nat),
        c.mapper == 3,
        c.screen_mirroring == Mirroring::Vertical,
{
    let mut image: Vec<u8> = vec![
        0x4E, 0x45, 0x53, 0x1A, 0x02, 0x01, 0x31, 0x00, 0x00, 0x00, 0x00, 0x00, 0x00, 0x00, 0x00,
        0x00,
    ];
    let mut pgr_rom: Vec<u8> = vec![0u8; 2 * PRG_ROM_PAGE_SIZE];
    let mut chr_rom: Vec<u8> = vec![0u8; CHR_ROM_PAGE_SIZE];
    image.append(&mut pgr_rom);
    image.append(&mut chr_rom);
    match Cartridge::new(image.as_slice()) {
        Ok(c) => c,
        Err(_) => Cartridge::default(),
    }
}

} // verus!

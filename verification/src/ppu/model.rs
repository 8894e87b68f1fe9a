//! What the picture unit is, as a mathematical value, and what each of its
//! operations makes of it.

use crate::cartridge::Mirroring;
use crate::ppu::registers::addr::{ADDRESS_SPACE, PPUADDR};
use crate::ppu::registers::controller::PPUCTRL;
use crate::ppu::registers::mask::PPUMASK;
use crate::ppu::registers::scroll::PPUSCROLL;
use crate::ppu::registers::status::PPUSTATUS;
use vstd::prelude::*;

verus! {

/// Dots in one scanline.
pub const SCANLINE_DOTS: usize = 341;

/// Scanlines in one frame.
pub const FRAME_SCANLINES: u16 = 262;

/// The scanline on which the vertical blank starts.
pub const VBLANK_SCANLINE: u16 = 241;

/// Size of one nametable.
pub const NAMETABLE_SIZE: u16 = 0x0400;

/// Bytes of nametable memory.
pub const VRAM_SIZE: usize = 2048;

/// Bytes of palette memory.
pub const PALETTE_TABLE_SIZE: usize = 32;

/// Bytes of sprite memory: 64 sprites of 4 bytes.
pub const OAM_DATA_SIZE: usize = 256;

/// Bytes of pattern memory.
pub const CHR_SIZE: usize = 0x2000;

/// First address of the nametables.
pub const VRAM_START: u16 = 0x2000;

/// First address behind the nametables: 0x3000 to 0x3eff has no storage.
pub const UNUSED_START: u16 = 0x3000;

/// First address of the palettes.
pub const PALETTE_TABLE_START: u16 = 0x3f00;

/// Offset of the attribute table in a nametable.
pub const ATTRIBUTE_TABLE_OFFSET: usize = 0x03c0;

/// The state of the picture unit.
#[verifier::ext_equal]
pub struct PpuState {
    pub chr_rom: Seq<u8>,
    pub chr_ram: Option<Seq<u8>>,
    pub vram: Seq<u8>,
    pub palette_table: Seq<u8>,
    pub oam_data: Seq<u8>,
    pub controller: PPUCTRL,
    pub ppu_mask: PPUMASK,
    pub status: PPUSTATUS,
    pub ppu_addr: PPUADDR,
    pub ppu_scroll: PPUSCROLL,
    pub oam_addr: u8,
    pub mirroring: Mirroring,
    pub scanline: u16,
    pub cycles: usize,
    pub nmi_interrupt: Option<u8>,
    pub internal_data_buffer: u8,
}

/// Where a nametable address lands in the physical memory: `index` counts
/// from the first nametable, over the four logical ones.
pub open spec fn nametable_fold(mirroring: Mirroring, index: int) -> int {
    let table = index / (NAMETABLE_SIZE as int);
    let physical = match mirroring {
        Mirroring::Vertical => table % 2,
        Mirroring::Horizontal => table / 2,
        Mirroring::FourScreen => table,
    };
    physical * (NAMETABLE_SIZE as int) + index % (NAMETABLE_SIZE as int)
}

/// The palette entry behind an address of the palette region: the entries
/// 0x10, 0x14, 0x18 and 0x1c stand for 0x00, 0x04, 0x08 and 0x0c.
pub open spec fn palette_index(addr: u16) -> int {
    let offset = addr - PALETTE_TABLE_START;
    if offset == 0x10 || offset == 0x14 || offset == 0x18 || offset == 0x1c {
        offset - 0x10
    } else {
        offset
    }
}

impl PpuState {
    /// The memories have their sizes, the counters are inside the frame and
    /// the address inside the 14 bits.
    pub open spec fn wf(self) -> bool {
        &&& self.vram.len() == VRAM_SIZE
        &&& self.palette_table.len() == PALETTE_TABLE_SIZE
        &&& self.oam_data.len() == OAM_DATA_SIZE
        &&& self.chr_ram matches Some(ram) ==> ram.len() == CHR_SIZE
        &&& self.scanline < FRAME_SCANLINES
        &&& self.cycles < SCANLINE_DOTS
        &&& self.ppu_addr.masked()
    }

    /// The pattern memory in use: the cartridge's, or the writable one
    /// where the cartridge has none.
    pub open spec fn chr(self) -> Seq<u8> {
        match self.chr_ram {
            Some(ram) => ram,
            None => self.chr_rom,
        }
    }

    /// Dots since the start of the frame.
    pub open spec fn dot(self) -> int {
        self.scanline as int * SCANLINE_DOTS as int + self.cycles as int
    }

    /// The state after `n` dots, and whether the frame ended on the way.
    ///
    /// The dot counter takes the dots; past the end of the scanline it starts
    /// over on the next one. Entering scanline 241 starts the vertical blank
    /// and, where the control register says so, raises the interrupt.
    /// Leaving scanline 261 starts the next frame: the vertical blank and
    /// the sprite-zero hit end and the interrupt is withdrawn.
    pub open spec fn tick(self, n: nat) -> (PpuState, bool) {
        let total = self.cycles + n;
        if total < SCANLINE_DOTS {
            (PpuState { cycles: total as usize, ..self }, false)
        } else {
            let cycles = (total - SCANLINE_DOTS) as usize;
            let line = self.scanline + 1;
            let entering = line == VBLANK_SCANLINE;
            let status = if entering {
                self.status.with(PPUSTATUS::VBLANK_STARTED, true)
            } else {
                self.status
            };
            let nmi_interrupt = if entering && self.controller.nmi_enabled() {
                Some(1u8)
            } else {
                self.nmi_interrupt
            };
            if line >= FRAME_SCANLINES {
                (
                    PpuState {
                        cycles,
                        scanline: 0,
                        status: status.with(PPUSTATUS::SPRITE_ZERO_HIT, false).with(
                            PPUSTATUS::VBLANK_STARTED,
                            false,
                        ),
                        nmi_interrupt: None,
                        ..self
                    },
                    true,
                )
            } else {
                (PpuState { cycles, scanline: line as u16, status, nmi_interrupt, ..self }, false)
            }
        }
    }

    /// The state after a write of the control register. Switching the
    /// interrupt on during the vertical blank raises it at once.
    pub open spec fn write_controller(self, value: u8) -> PpuState {
        let controller = PPUCTRL { bits: value };
        PpuState {
            controller,
            nmi_interrupt: if !self.controller.nmi_enabled() && controller.nmi_enabled()
                && self.status.in_vblank() {
                Some(1u8)
            } else {
                self.nmi_interrupt
            },
            ..self
        }
    }

    /// The state after a write of the mask register.
    pub open spec fn write_mask(self, value: u8) -> PpuState {
        PpuState { ppu_mask: PPUMASK { bits: value }, ..self }
    }

    /// The state after a write of the address register. The scroll register
    /// shares the write sequence: after a first write both expect the second.
    pub open spec fn write_addr(self, value: u8) -> PpuState {
        PpuState {
            ppu_addr: PPUADDR::holding(
                self.ppu_addr.updated_address(value),
                !self.ppu_addr.write_latch,
            ),
            ppu_scroll: PPUSCROLL { latch: self.ppu_addr.write_latch, ..self.ppu_scroll },
            ..self
        }
    }

    /// The state after a write of the scroll register. The address register
    /// shares the write sequence: after a first write both expect the second.
    pub open spec fn write_scroll(self, value: u8) -> PpuState {
        PpuState {
            ppu_scroll: self.ppu_scroll.written(value),
            ppu_addr: PPUADDR { write_latch: self.ppu_scroll.latch, ..self.ppu_addr },
            ..self
        }
    }

    /// The state after a write of the sprite-memory address.
    pub open spec fn write_oam_addr(self, value: u8) -> PpuState {
        PpuState { oam_addr: value, ..self }
    }

    /// The state after a write of the sprite-memory data port: the byte goes
    /// where the address points, and the address moves on, wrapping.
    pub open spec fn write_oam_data(self, value: u8) -> PpuState {
        PpuState {
            oam_data: self.oam_data.update(self.oam_addr as int, value),
            oam_addr: ((self.oam_addr + 1) % 256) as u8,
            ..self
        }
    }

    /// The byte that the sprite-memory address points at.
    pub open spec fn read_oam_data(self) -> u8 {
        self.oam_data[self.oam_addr as int]
    }

    /// The state after 256 bytes were copied into the sprite memory, the
    /// first one landing where the address points; the address ends where it
    /// began.
    pub open spec fn write_oam_dma(self, data: Seq<u8>) -> PpuState {
        PpuState {
            oam_data: Seq::new(
                OAM_DATA_SIZE as nat,
                |i: int| data[(i - self.oam_addr) % 256],
            ),
            ..self
        }
    }

    /// What a read of the status register returns, and the state after it:
    /// the vertical-blank bit is cleared and both write sequences start over.
    pub open spec fn read_status(self) -> (u8, PpuState) {
        (
            self.status.bits,
            PpuState {
                status: self.status.with(PPUSTATUS::VBLANK_STARTED, false),
                ppu_addr: PPUADDR { write_latch: true, ..self.ppu_addr },
                ppu_scroll: PPUSCROLL { latch: false, ..self.ppu_scroll },
                ..self
            },
        )
    }

    /// Where address `addr` of the nametable region lands in the nametable
    /// memory. Only the twelve low bits count.
    pub open spec fn mirror_vram_addr(self, addr: u16) -> int {
        nametable_fold(self.mirroring, addr as int % 0x1000)
    }

    /// The state with the address moved on by what the control register
    /// says.
    pub open spec fn advance_addr(self) -> PpuState {
        PpuState {
            ppu_addr: PPUADDR::holding(
                self.ppu_addr.incremented_address(self.controller.increment()),
                self.ppu_addr.write_latch,
            ),
            ..self
        }
    }

    /// The data port can be read: there is storage behind the address.
    pub open spec fn data_readable(self) -> bool {
        let addr = self.ppu_addr.address();
        if addr < VRAM_START {
            addr < self.chr().len()
        } else if addr < UNUSED_START {
            self.mirror_vram_addr(addr) < VRAM_SIZE
        } else if addr < PALETTE_TABLE_START {
            false
        } else {
            addr < ADDRESS_SPACE && palette_index(addr) < PALETTE_TABLE_SIZE
        }
    }

    /// The data port can be written: there is storage behind the address,
    /// or, in the pattern region, nothing that a write could change.
    pub open spec fn data_writable(self) -> bool {
        let addr = self.ppu_addr.address();
        if addr < VRAM_START {
            self.chr_ram matches Some(ram) ==> addr < ram.len()
        } else if addr < UNUSED_START {
            self.mirror_vram_addr(addr) < VRAM_SIZE
        } else if addr < PALETTE_TABLE_START {
            false
        } else {
            addr < ADDRESS_SPACE && palette_index(addr) < PALETTE_TABLE_SIZE
        }
    }

    /// What a read of the data port returns, and the state after it.
    ///
    /// The address moves on. A read of pattern or nametable memory returns
    /// what the previous such read fetched and fetches the addressed byte for
    /// the next one; a read of the palettes returns the entry at once.
    pub open spec fn read_data(self) -> (u8, PpuState) {
        let addr = self.ppu_addr.address();
        let next = self.advance_addr();
        if addr < VRAM_START {
            (
                self.internal_data_buffer,
                PpuState { internal_data_buffer: self.chr()[addr as int], ..next },
            )
        } else if addr < UNUSED_START {
            (
                self.internal_data_buffer,
                PpuState { internal_data_buffer: self.vram[self.mirror_vram_addr(addr)], ..next },
            )
        } else {
            (self.palette_table[palette_index(addr)], next)
        }
    }

    /// The state after a write of the data port.
    ///
    /// The address moves on. The byte goes to the writable pattern memory,
    /// the nametable memory or the palettes; a write into the cartridge's
    /// pattern memory changes nothing else.
    pub open spec fn write_data(self, value: u8) -> PpuState {
        let addr = self.ppu_addr.address();
        let next = self.advance_addr();
        if addr < VRAM_START {
            match self.chr_ram {
                Some(ram) => PpuState { chr_ram: Some(ram.update(addr as int, value)), ..next },
                None => next,
            }
        } else if addr < UNUSED_START {
            PpuState { vram: self.vram.update(self.mirror_vram_addr(addr), value), ..next }
        } else {
            PpuState {
                palette_table: self.palette_table.update(palette_index(addr), value),
                ..next
            }
        }
    }

    /// The attribute byte of the 4x4 group of tiles that holds the tile, in
    /// the first nametable.
    pub open spec fn attribute(self, tile_x: int, tile_y: int) -> u8 {
        self.vram[ATTRIBUTE_TABLE_OFFSET as int + (tile_y / 4) * 8 + tile_x / 4]
    }

    /// Which of the four background palettes colours the tile: two bits of
    /// the attribute byte, picked by the 2x2 quadrant of the tile in its
    /// group.
    pub open spec fn bg_palette_number(self, tile_x: int, tile_y: int) -> int {
        let quadrant = ((tile_y % 4) / 2) * 2 + (tile_x % 4) / 2;
        (self.attribute(tile_x, tile_y) as int / pow4(quadrant)) % 4
    }

    /// The four colours of a background tile: the backdrop and the three
    /// entries of its palette.
    pub open spec fn bg_palette(self, tile_x: int, tile_y: int) -> Seq<u8> {
        let start = 1 + self.bg_palette_number(tile_x, tile_y) * 4;
        seq![
            self.palette_table[0],
            self.palette_table[start],
            self.palette_table[start + 1],
            self.palette_table[start + 2],
        ]
    }

    /// The four colours of a sprite: its first one stands for transparent
    /// and is never drawn.
    pub open spec fn sprite_palette(self, palette_idx: u8) -> Seq<u8> {
        let start = 0x11 + palette_idx as int * 4;
        seq![
            0u8,
            self.palette_table[start],
            self.palette_table[start + 1],
            self.palette_table[start + 2],
        ]
    }
}

/// The picture unit as it is switched on with the given pattern memory: all
/// memories and registers zero, 21 dots into the first scanline. Where the
/// cartridge brings no pattern memory, a writable one takes its place.
pub open spec fn power_on(chr_rom: Seq<u8>, mirroring: Mirroring) -> PpuState {
    PpuState {
        chr_rom,
        chr_ram: if chr_rom.len() == 0 {
            Some(Seq::new(CHR_SIZE as nat, |i: int| 0u8))
        } else {
            None
        },
        vram: Seq::new(VRAM_SIZE as nat, |i: int| 0u8),
        palette_table: Seq::new(PALETTE_TABLE_SIZE as nat, |i: int| 0u8),
        oam_data: Seq::new(OAM_DATA_SIZE as nat, |i: int| 0u8),
        controller: PPUCTRL { bits: 0 },
        ppu_mask: PPUMASK { bits: 0 },
        status: PPUSTATUS { bits: 0 },
        ppu_addr: PPUADDR::holding(0, true),
        ppu_scroll: PPUSCROLL { scroll_x: 0, scroll_y: 0, latch: false },
        oam_addr: 0,
        mirroring,
        scanline: 0,
        cycles: 21,
        nmi_interrupt: None,
        internal_data_buffer: 0,
    }
}

/// A picture unit without a cartridge: one byte of pattern memory,
/// horizontal mirroring, and every nametable byte 1.
pub open spec fn bare() -> PpuState {
    PpuState {
        vram: Seq::new(VRAM_SIZE as nat, |i: int| 1u8),
        ..power_on(seq![0u8], Mirroring::Horizontal)
    }
}

/// 4 to the power of `quadrant`, for the four quadrants.
pub open spec fn pow4(quadrant: int) -> int {
    if quadrant == 0 {
        1
    } else if quadrant == 1 {
        4
    } else if quadrant == 2 {
        16
    } else {
        64
    }
}

} // verus!

//! The picture-processing unit: pattern, nametable, palette and sprite
//! memory, the registers that the processor reaches them through, and the
//! counter of scanlines and dots that times the vertical blank.

pub mod latch;
pub mod model;
pub mod timing;
pub mod registers;

use crate::cartridge::Mirroring;
use crate::ppu::model::{
    bare, palette_index, power_on, PpuState, ATTRIBUTE_TABLE_OFFSET, CHR_SIZE, FRAME_SCANLINES,
    NAMETABLE_SIZE, OAM_DATA_SIZE, PALETTE_TABLE_SIZE, PALETTE_TABLE_START, SCANLINE_DOTS,
    UNUSED_START, VBLANK_SCANLINE, VRAM_SIZE, VRAM_START,
};
use crate::ppu::registers::addr::PPUADDR;
use crate::ppu::registers::controller::PPUCTRL;
use crate::ppu::registers::mask::PPUMASK;
use crate::ppu::registers::scroll::PPUSCROLL;
use crate::ppu::registers::status::PPUSTATUS;
use vstd::prelude::*;

verus! {

/// The picture unit: its memories, its registers and its place in the
/// frame.
pub struct PPU {
    /// Pattern memory of the cartridge, behind 0x0000 to 0x1fff.
    pub chr_rom: Vec<u8>,
    /// Nametable memory, behind 0x2000 to 0x2fff.
    pub vram: [u8; VRAM_SIZE],
    /// Palette memory, from 0x3f00.
    pub palette_table: [u8; PALETTE_TABLE_SIZE],
    /// Sprite memory.
    pub oam_data: [u8; OAM_DATA_SIZE],
    pub controller: PPUCTRL,
    pub ppu_addr: PPUADDR,
    pub mirroring: Mirroring,
    pub ppu_mask: PPUMASK,
    pub oam_addr: u8,
    pub ppu_scroll: PPUSCROLL,
    pub status: PPUSTATUS,
    pub scanline: u16,
    pub cycles: usize,
    /// The interrupt that the processor has not taken yet.
    pub nmi_interrupt: Option<u8>,
    /// Writable pattern memory, where the cartridge has none.
    pub chr_ram: Option<Vec<u8>>,
    /// What the last read of the data port fetched.
    pub internal_data_buffer: u8,
}

impl View for PPU {
    type V = PpuState;

    open spec fn view(&self) -> PpuState {
        PpuState {
            chr_rom: self.chr_rom@,
            chr_ram: match self.chr_ram {
                Some(ram) => Some(ram@),
                None => None,
            },
            vram: self.vram@,
            palette_table: self.palette_table@,
            oam_data: self.oam_data@,
            controller: self.controller,
            ppu_mask: self.ppu_mask,
            status: self.status,
            ppu_addr: self.ppu_addr,
            ppu_scroll: self.ppu_scroll,
            oam_addr: self.oam_addr,
            mirroring: self.mirroring,
            scanline: self.scanline,
            cycles: self.cycles,
            nmi_interrupt: self.nmi_interrupt,
            internal_data_buffer: self.internal_data_buffer,
        }
    }
}

impl PPU {
    /// The unit is in a state that its operations keep: see
    /// [`PpuState::wf`].
    pub open spec fn wf(&self) -> bool {
        self@.wf()
    }

    /// Whether the unit is in a state that its operations keep.
    pub fn is_wf(&self) -> (ok: bool)
        ensures
            ok == self.wf(),
    {
        let ram_fits = match &self.chr_ram {
            Some(ram) => ram.len() == CHR_SIZE,
            None => true,
        };
        ram_fits && self.scanline < FRAME_SCANLINES && self.cycles < SCANLINE_DOTS
            && self.ppu_addr.get() < 0x4000
    }

    /// The unit as it is switched on with the pattern memory of a cartridge.
    pub fn new(chr_rom: Vec<u8>, mirroring: Mirroring) -> (ppu: Self)
        ensures
            ppu@ == power_on(chr_rom@, mirroring),
            ppu.wf(),
    {
        let chr_ram = if chr_rom.len() == 0 {
            Some(vec![0u8; CHR_SIZE])
        } else {
            None
        };
        PPU {
            chr_rom,
            mirroring,
            controller: PPUCTRL::new(),
            palette_table: [0; PALETTE_TABLE_SIZE],
            vram: [0; VRAM_SIZE],
            oam_data: [0; OAM_DATA_SIZE],
            ppu_addr: PPUADDR::new(),
            ppu_mask: PPUMASK::new(),
            ppu_scroll: PPUSCROLL::new(),
            status: PPUSTATUS::new(),
            oam_addr: 0,
            scanline: 0,
            cycles: 21,
            nmi_interrupt: None,
            internal_data_buffer: 0,
            chr_ram,
        }
    }

    /// A unit without a cartridge.
    pub fn default() -> (ppu: Self)
        ensures
            ppu@ == bare(),
            ppu.wf(),
    {
        PPU {
            chr_rom: vec![0u8; 1],
            mirroring: Mirroring::Horizontal,
            controller: PPUCTRL::new(),
            palette_table: [0; PALETTE_TABLE_SIZE],
            vram: [1; VRAM_SIZE],
            oam_data: [0; OAM_DATA_SIZE],
            ppu_addr: PPUADDR::new(),
            ppu_mask: PPUMASK::new(),
            ppu_scroll: PPUSCROLL::new(),
            status: PPUSTATUS::new(),
            oam_addr: 0,
            scanline: 0,
            cycles: 21,
            nmi_interrupt: None,
            internal_data_buffer: 0,
            chr_ram: None,
        }
    }

    /// Lets `ppu_cycles` dots pass, at most one scanline of them, and says
    /// whether the frame ended on the way.
    pub fn tick(&mut self, ppu_cycles: usize) -> (frame_complete: bool)
        requires
            old(self).wf(),
            ppu_cycles <= SCANLINE_DOTS,
        ensures
            (final(self)@, frame_complete) == old(self)@.tick(ppu_cycles as nat),
            final(self).wf(),
    {
        self.cycles += ppu_cycles;
        if self.cycles >= SCANLINE_DOTS {
            self.cycles -= SCANLINE_DOTS;
            self.scanline += 1;
            if self.scanline == VBLANK_SCANLINE {
                self.status.set(PPUSTATUS::VBLANK_STARTED, true);
                if self.controller.contains(PPUCTRL::GENERATE_NMI) {
                    self.nmi_interrupt = Some(1);
                }
            }
            if self.scanline >= FRAME_SCANLINES {
                self.scanline = 0;
                self.status.set(PPUSTATUS::SPRITE_ZERO_HIT, false);
                self.status.set(PPUSTATUS::VBLANK_STARTED, false);
                self.nmi_interrupt = None;
                return true;
            }
        }
        false
    }

    /// Writes the address register, behind 0x2006.
    pub fn write_to_ppu_addr(&mut self, value: u8)
        ensures
            final(self)@ == old(self)@.write_addr(value),
            old(self).wf() ==> final(self).wf(),
    {
        self.ppu_addr.update(value);
        self.ppu_scroll.latch = !self.ppu_addr.write_latch;
    }

    /// Writes the control register, behind 0x2000.
    pub fn write_to_controller(&mut self, value: u8)
        ensures
            final(self)@ == old(self)@.write_controller(value),
            old(self).wf() ==> final(self).wf(),
    {
        let before_nmi_status = self.controller.contains(PPUCTRL::GENERATE_NMI);
        self.controller = PPUCTRL::from_bits_truncate(value);
        if !before_nmi_status && self.controller.contains(PPUCTRL::GENERATE_NMI)
            && self.status.contains(PPUSTATUS::VBLANK_STARTED) {
            self.nmi_interrupt = Some(1);
        }
    }

    /// Writes the mask register, behind 0x2001.
    pub fn write_to_mask(&mut self, value: u8)
        ensures
            final(self)@ == old(self)@.write_mask(value),
            old(self).wf() ==> final(self).wf(),
    {
        self.ppu_mask = PPUMASK::from_bits_truncate(value);
    }

    /// Writes the scroll register, behind 0x2005.
    pub fn write_to_scroll(&mut self, value: u8)
        ensures
            final(self)@ == old(self)@.write_scroll(value),
            old(self).wf() ==> final(self).wf(),
    {
        self.ppu_scroll.write(value);
        self.ppu_addr.write_latch = !self.ppu_scroll.latch;
    }

    /// Writes the sprite-memory data port, behind 0x2004.
    pub fn write_to_oam_data(&mut self, value: u8)
        ensures
            final(self)@ == old(self)@.write_oam_data(value),
            old(self).wf() ==> final(self).wf(),
    {
        self.oam_data[self.oam_addr as usize] = value;
        self.oam_addr = self.oam_addr.wrapping_add(1);
    }

    /// Writes the sprite-memory address, behind 0x2003.
    pub fn write_to_oam_addr(&mut self, value: u8)
        ensures
            final(self)@ == old(self)@.write_oam_addr(value),
            old(self).wf() ==> final(self).wf(),
    {
        self.oam_addr = value;
    }

    /// Copies a page into the sprite memory, starting where the
    /// sprite-memory address points and wrapping at the end.
    pub fn write_oam_dma(&mut self, data: &[u8; 256])
        ensures
            final(self)@ == old(self)@.write_oam_dma(data@),
            old(self).wf() ==> final(self).wf(),
    {
        let ghost start = self.oam_addr;
        let ghost before = self@;
        let mut i: usize = 0;
        while i < 256
            invariant
                i <= 256,
                self.oam_addr as int == (start + i) % 256,
                self@ == (PpuState { oam_data: self.oam_data@, oam_addr: self.oam_addr, ..before }),
                before.oam_addr == start,
                forall|k: int|
                    0 <= k < 256 ==> #[trigger] self.oam_data@[k] == if (k - start) % 256 < i {
                        data@[(k - start) % 256]
                    } else {
                        before.oam_data[k]
                    },
            decreases 256 - i,
        {
            self.oam_data[self.oam_addr as usize] = data[i];
            self.oam_addr = self.oam_addr.wrapping_add(1);
            i += 1;
        }
        assert(self.oam_data@ =~= before.write_oam_dma(data@).oam_data);
    }

    /// Moves the address on by what the control register says.
    fn increment_vram_addr(&mut self)
        ensures
            final(self)@ == old(self)@.advance_addr(),
    {
        if self.controller.contains(PPUCTRL::VRAM_ADD_INCREMENT) {
            self.ppu_addr.increment(32);
        } else {
            self.ppu_addr.increment(1);
        }
    }

    /// The data port can be written.
    pub fn can_write_data(&self) -> (ok: bool)
        requires
            self.wf(),
        ensures
            ok == self@.data_writable(),
    {
        let addr = self.ppu_addr.get();
        if addr < VRAM_START {
            true
        } else if addr < UNUSED_START {
            (self.mirror_vram_addr(addr) as usize) < VRAM_SIZE
        } else if addr < PALETTE_TABLE_START {
            false
        } else {
            Self::palette_slot(addr) < PALETTE_TABLE_SIZE
        }
    }

    /// The data port can be read.
    pub fn can_read_data(&self) -> (ok: bool)
        requires
            self.wf(),
        ensures
            ok == self@.data_readable(),
    {
        let addr = self.ppu_addr.get();
        if addr < VRAM_START {
            match &self.chr_ram {
                Some(ram) => (addr as usize) < ram.len(),
                None => (addr as usize) < self.chr_rom.len(),
            }
        } else if addr < UNUSED_START {
            (self.mirror_vram_addr(addr) as usize) < VRAM_SIZE
        } else if addr < PALETTE_TABLE_START {
            false
        } else {
            Self::palette_slot(addr) < PALETTE_TABLE_SIZE
        }
    }

    /// The palette entry behind an address of the palette region.
    fn palette_slot(addr: u16) -> (slot: usize)
        requires
            PALETTE_TABLE_START <= addr,
        ensures
            slot == palette_index(addr),
    {
        if addr == 0x3f10 || addr == 0x3f14 || addr == 0x3f18 || addr == 0x3f1c {
            (addr - 0x10 - PALETTE_TABLE_START) as usize
        } else {
            (addr - PALETTE_TABLE_START) as usize
        }
    }

    /// Writes the data port, behind 0x2007.
    pub fn write_to_data(&mut self, value: u8)
        requires
            old(self).wf(),
            old(self)@.data_writable(),
        ensures
            final(self)@ == old(self)@.write_data(value),
            final(self).wf(),
    {
        let addr = self.ppu_addr.get();
        self.increment_vram_addr();
        if addr < VRAM_START {
            match &mut self.chr_ram {
                Some(ram) => {
                    ram[addr as usize] = value;
                },
                None => {},
            }
        } else if addr < UNUSED_START {
            let index = self.mirror_vram_addr(addr);
            self.vram[index as usize] = value;
        } else {
            self.palette_table[Self::palette_slot(addr)] = value;
        }
    }

    /// The four colours of the background tile in column `tile_x` and row
    /// `tile_y` of the first nametable.
    pub fn bg_palette(&self, tile_x: usize, tile_y: usize) -> (colours: [u8; 4])
        requires
            ATTRIBUTE_TABLE_OFFSET + (tile_y / 4) * 8 + tile_x / 4 < VRAM_SIZE,
        ensures
            colours@ == self@.bg_palette(tile_x as int, tile_y as int),
    {
        let attr_table_idx = (tile_y / 4) * 8 + (tile_x / 4);
        let attr_byte = self.vram[attr_table_idx + ATTRIBUTE_TABLE_OFFSET];
        proof {
            lemma_attribute_bits(attr_byte);
        }
        let palette_idx = if (tile_x % 4) / 2 == 0 {
            if (tile_y % 4) / 2 == 0 {
                attr_byte & 0b11
            } else {
                (attr_byte >> 4) & 0b11
            }
        } else {
            if (tile_y % 4) / 2 == 0 {
                (attr_byte >> 2) & 0b11
            } else {
                (attr_byte >> 6) & 0b11
            }
        };
        let palette_start: usize = 1 + (palette_idx as usize) * 4;
        let colours = [
            self.palette_table[0],
            self.palette_table[palette_start],
            self.palette_table[palette_start + 1],
            self.palette_table[palette_start + 2],
        ];
        assert(colours@ =~= self@.bg_palette(tile_x as int, tile_y as int));
        colours
    }

    /// The four colours of a sprite that uses sprite palette `palette_idx`.
    pub fn sprite_palette(&self, palette_idx: u8) -> (colours: [u8; 4])
        requires
            palette_idx <= 3,
        ensures
            colours@ == self@.sprite_palette(palette_idx),
    {
        let start = 0x11 + (palette_idx * 4) as usize;
        let colours = [
            0,
            self.palette_table[start],
            self.palette_table[start + 1],
            self.palette_table[start + 2],
        ];
        assert(colours@ =~= self@.sprite_palette(palette_idx));
        colours
    }

    /// Reads the data port, behind 0x2007.
    pub fn read_data(&mut self) -> (data: u8)
        requires
            old(self).wf(),
            old(self)@.data_readable(),
        ensures
            (data, final(self)@) == old(self)@.read_data(),
            final(self).wf(),
    {
        let addr = self.ppu_addr.get();
        self.increment_vram_addr();
        if addr < VRAM_START {
            let result = self.internal_data_buffer;
            self.internal_data_buffer = match &self.chr_ram {
                Some(ram) => ram[addr as usize],
                None => self.chr_rom[addr as usize],
            };
            result
        } else if addr < UNUSED_START {
            let result = self.internal_data_buffer;
            let index = self.mirror_vram_addr(addr);
            self.internal_data_buffer = self.vram[index as usize];
            result
        } else {
            self.palette_table[Self::palette_slot(addr)]
        }
    }

    /// Reads the sprite-memory data port, behind 0x2004.
    pub fn read_oam_data(&mut self) -> (data: u8)
        ensures
            data == old(self)@.read_oam_data(),
            final(self)@ == old(self)@,
    {
        self.oam_data[self.oam_addr as usize]
    }

    /// Reads the status register, behind 0x2002.
    pub fn read_status(&mut self) -> (data: u8)
        ensures
            (data, final(self)@) == old(self)@.read_status(),
            old(self).wf() ==> final(self).wf(),
    {
        let data = self.status.bits();
        self.status.set(PPUSTATUS::VBLANK_STARTED, false);
        self.ppu_addr.reset_write_latch();
        self.ppu_scroll.reset_latch();
        data
    }

    /// Where an address of the nametable region lands in the nametable
    /// memory.
    ///
    /// ```text
    /// logical      horizontal   vertical
    /// [ 0 ] [ 1 ]  [ A ] [ a ]  [ A ] [ B ]
    /// [ 2 ] [ 3 ]  [ B ] [ b ]  [ a ] [ b ]
    /// ```
    pub fn mirror_vram_addr(&self, addr: u16) -> (index: u16)
        requires
            (addr / 0x2000) % 2 == 1,
        ensures
            index == self@.mirror_vram_addr(addr),
    {
        proof {
            lemma_nametable_bits(addr);
        }
        let mirrored_vram = addr & 0x2fff;
        let vram_index = mirrored_vram - VRAM_START;
        let name_table = vram_index / NAMETABLE_SIZE;
        match self.mirroring {
            Mirroring::Vertical => if name_table == 2 || name_table == 3 {
                vram_index - 2 * NAMETABLE_SIZE
            } else {
                vram_index
            },
            Mirroring::Horizontal => if name_table == 1 || name_table == 2 {
                vram_index - NAMETABLE_SIZE
            } else if name_table == 3 {
                vram_index - 2 * NAMETABLE_SIZE
            } else {
                vram_index
            },
            Mirroring::FourScreen => vram_index,
        }
    }
}

proof fn lemma_nametable_bits(addr: u16)
    by (bit_vector)
    ensures
        (addr / 0x2000) % 2 == 1 ==> (addr & 0x2fff) == 0x2000 + addr % 0x1000,
{
}

proof fn lemma_attribute_bits(attr: u8)
    by (bit_vector)
    ensures
        attr & 0b11 == attr % 4,
        (attr >> 2) & 0b11 == (attr / 4) % 4,
        (attr >> 4) & 0b11 == (attr / 16) % 4,
        (attr >> 6) & 0b11 == (attr / 64) % 4,
{
}

} // verus!

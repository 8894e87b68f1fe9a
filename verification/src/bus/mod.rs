//! The bus of the processor.
//!
//! ```text
//! 0x0000 - 0x07ff  working memory: zero page, stack, the rest
//! 0x0800 - 0x1fff  the working memory again, three times
//! 0x2000 - 0x2007  registers of the picture unit
//! 0x2008 - 0x3fff  the registers again, every 8 bytes
//! 0x4014           transfer of a page into the sprite memory
//! 0x4016           controller
//! 0x6000 - 0x7fff  memory of the cartridge
//! 0x8000 - 0xffff  program of the cartridge
//! ```

pub mod dma;
pub mod mirroring;
pub mod model;

use crate::bus::model::{
    BusFault, BusState, DOTS_PER_CYCLE, JOYPAD, OAM_DMA, PPU_MIRRORS_END, PRG_RAM_SIZE,
    PRG_RAM_START, PRG_ROM_START, START_CYCLES, TICK_LIMIT, WRAM_END, WRAM_SIZE,
};
use crate::bits::lemma_low_eleven_bits;
use crate::cartridge::Cartridge;
use crate::cpu::Mem;
use crate::joypad::Joypad;
use crate::ppu::PPU;
use vstd::prelude::*;

verus! {

/// The memories that the processor reaches, the picture unit, the
/// controller and the cycle counter.
pub struct Bus {
    pub cpu_wram: [u8; WRAM_SIZE],
    pub prg_ram: [u8; PRG_RAM_SIZE],
    pub prg_rom: Vec<u8>,
    pub ppu: PPU,
    pub cycles: usize,
    pub joypad: Joypad,
    /// The first access that the hardware has no answer to, if there was one.
    pub fault: Option<BusFault>,
}

impl View for Bus {
    type V = BusState;

    open spec fn view(&self) -> BusState {
        self.state()
    }
}

impl Bus {
    /// The bus as a mathematical value. Proofs about the processor hand the
    /// bus on without looking into it, so this is only unfolded on request.
    #[verifier::opaque]
    pub open spec fn state(&self) -> BusState {
        BusState {
            cpu_wram: self.cpu_wram@,
            prg_ram: self.prg_ram@,
            prg_rom: self.prg_rom@,
            ppu: self.ppu@,
            cycles: self.cycles,
            joypad: self.joypad,
            fault: self.fault,
        }
    }

    /// The bus is in a state that its operations keep: see
    /// [`BusState::wf`].
    pub open spec fn wf(&self) -> bool {
        self@.wf()
    }

    /// Whether the bus is in a state that its operations keep.
    pub fn is_wf(&self) -> (ok: bool)
        ensures
            ok == self.wf(),
    {
        reveal(Bus::state);
        (self.prg_rom.len() == 0x4000 || self.prg_rom.len() == 0x8000) && self.ppu.is_wf()
    }

    /// The bus as it is switched on with a cartridge in it, whose program
    /// has one or two pages.
    pub fn new(cartridge: Cartridge) -> (bus: Bus)
        requires
            cartridge.prg_rom@.len() == 0x4000 || cartridge.prg_rom@.len() == 0x8000,
        ensures
            bus@ == BusState::power_on(
                cartridge.prg_rom@,
                cartridge.chr_rom@,
                cartridge.screen_mirroring,
            ),
            bus.wf(),
    {
        reveal(Bus::state);
        Bus {
            cpu_wram: [0; WRAM_SIZE],
            prg_ram: [0; PRG_RAM_SIZE],
            prg_rom: cartridge.prg_rom,
            ppu: PPU::new(cartridge.chr_rom, cartridge.screen_mirroring),
            cycles: START_CYCLES,
            joypad: Joypad::new(),
            fault: None,
        }
    }

    /// The same as [`Bus::new`].
    pub fn default(rom: Cartridge) -> (bus: Bus)
        requires
            rom.prg_rom@.len() == 0x4000 || rom.prg_rom@.len() == 0x8000,
        ensures
            bus@ == BusState::power_on(rom.prg_rom@, rom.chr_rom@, rom.screen_mirroring),
            bus.wf(),
    {
        reveal(Bus::state);
        Bus::new(rom)
    }

    /// Lets `cycles` cycles of the processor pass, three dots of the picture
    /// unit for each, and says whether the interrupt of the picture unit rose
    /// in them.
    pub fn tick(&mut self, cycles: usize) -> (nmi_raised: bool)
        requires
            old(self).wf(),
            cycles <= TICK_LIMIT,
        ensures
            (final(self)@, nmi_raised) == old(self)@.tick(cycles),
            final(self).wf(),
    {
        reveal(Bus::state);
        self.cycles = self.cycles.wrapping_add(cycles);
        let nmi_before = self.ppu.nmi_interrupt.is_some();
        self.ppu.tick(cycles * DOTS_PER_CYCLE);
        let nmi_after = self.ppu.nmi_interrupt.is_some();
        !nmi_before && nmi_after
    }

    /// The byte of the program at `addr`.
    pub fn read_prg_rom(&self, addr: u16) -> (data: u8)
        requires
            self.wf(),
            addr >= PRG_ROM_START,
        ensures
            data == self@.prg_rom_byte(addr - PRG_ROM_START),
    {
        reveal(Bus::state);
        let mut offset = addr - PRG_ROM_START;
        if self.prg_rom.len() == 0x4000 && offset >= 0x4000 {
            offset = offset % 0x4000;
        }
        self.prg_rom[offset as usize]
    }

    /// The byte of the cartridge memory at `addr`.
    pub fn read_prg_ram(&self, addr: u16) -> (data: u8)
        requires
            PRG_RAM_START <= addr < PRG_ROM_START,
        ensures
            data == self@.prg_ram[addr - PRG_RAM_START],
    {
        reveal(Bus::state);
        self.prg_ram[(addr - PRG_RAM_START) as usize]
    }

    /// Writes the byte of the cartridge memory at `addr`.
    fn write_to_prg_ram(&mut self, addr: u16, val: u8)
        requires
            PRG_RAM_START <= addr < PRG_ROM_START,
        ensures
            final(self)@ == (BusState {
                prg_ram: old(self)@.prg_ram.update(addr - PRG_RAM_START, val),
                ..old(self)@
            }),
    {
        reveal(Bus::state);
        self.prg_ram[(addr - PRG_RAM_START) as usize] = val;
    }

    /// Takes the pending interrupt of the picture unit, if there is one.
    pub fn pull_nmi_status(&mut self) -> (nmi: Option<u8>)
        ensures
            (nmi, final(self)@) == old(self)@.pull_nmi_status(),
            old(self).wf() ==> final(self).wf(),
    {
        reveal(Bus::state);
        self.ppu.nmi_interrupt.take()
    }

    /// Takes the note of the first faulty access, if there is one.
    pub fn take_fault(&mut self) -> (fault: Option<BusFault>)
        ensures
            fault == old(self)@.fault,
            final(self)@ == (BusState { fault: None, ..old(self)@ }),
    {
        reveal(Bus::state);
        self.fault.take()
    }

    /// Notes a faulty access, unless an earlier one is noted.
    fn note(&mut self, fault: BusFault)
        ensures
            final(self)@ == old(self)@.with_fault(fault),
    {
        reveal(Bus::state);
        if self.fault.is_none() {
            self.fault = Some(fault);
        }
    }

    /// Reads a register of the picture unit.
    fn read_ppu_register(&mut self, addr: u16) -> (data: u8)
        requires
            old(self).wf(),
            WRAM_END < addr <= PPU_MIRRORS_END,
        ensures
            (data, final(self)@) == old(self)@.read(addr),
            final(self).wf(),
    {
        reveal(Bus::state);
        reveal(BusState::read);
        let register = addr % 8;
        if register == 2 {
            self.ppu.read_status()
        } else if register == 4 {
            self.ppu.read_oam_data()
        } else if register == 7 {
            if self.ppu.can_read_data() {
                self.ppu.read_data()
            } else {
                self.note(BusFault::Video(self.ppu.ppu_addr.get()));
                0
            }
        } else {
            self.note(BusFault::WriteOnly(addr));
            0
        }
    }

    /// Writes a register of the picture unit.
    fn write_ppu_register(&mut self, addr: u16, data: u8)
        requires
            old(self).wf(),
            WRAM_END < addr <= PPU_MIRRORS_END,
        ensures
            final(self)@ == old(self)@.write(addr, data),
            final(self).wf(),
    {
        reveal(Bus::state);
        reveal(BusState::write);
        let register = addr % 8;
        if register == 0 {
            self.ppu.write_to_controller(data);
        } else if register == 1 {
            self.ppu.write_to_mask(data);
        } else if register == 2 {
            self.note(BusFault::ReadOnly(addr));
        } else if register == 3 {
            self.ppu.write_to_oam_addr(data);
        } else if register == 4 {
            self.ppu.write_to_oam_data(data);
        } else if register == 5 {
            self.ppu.write_to_scroll(data);
        } else if register == 6 {
            self.ppu.write_to_ppu_addr(data);
        } else {
            if self.ppu.can_write_data() {
                self.ppu.write_to_data(data);
            } else {
                self.note(BusFault::Video(self.ppu.ppu_addr.get()));
            }
        }
    }

    /// Reads a page and copies it into the sprite memory.
    fn oam_dma(&mut self, page: u8)
        requires
            old(self).wf(),
        ensures
            final(self)@ == old(self)@.oam_dma(page),
            final(self).wf(),
    {
        reveal(Bus::state);
        let mut buffer: [u8; 256] = [0; 256];
        let hi: u16 = (page as u16) * 256;
        let ghost start = self@;
        let mut i: u16 = 0;
        while i < 256
            invariant
                i <= 256,
                hi == page as int * 256,
                self.wf(),
                start.read_page(page, i as nat).1 == self@,
                forall|k: int|
                    0 <= k < i ==> #[trigger] buffer@[k] == start.read_page(page, i as nat).0[k],
                start.read_page(page, i as nat).0.len() == i,
            decreases 256 - i,
        {
            let data = self.read_byte(hi + i);
            buffer[i as usize] = data;
            i += 1;
        }
        assert(buffer@ =~= start.read_page(page, 256).0);
        self.ppu.write_oam_dma(&buffer);
    }

    /// Reads the byte at `addr`.
    fn read_byte(&mut self, addr: u16) -> (data: u8)
        requires
            old(self).wf(),
        ensures
            (data, final(self)@) == old(self)@.read(addr),
            final(self).wf(),
    {
        reveal(Bus::state);
        reveal(BusState::read);
        if addr <= WRAM_END {
            proof {
                lemma_low_eleven_bits(addr);
            }
            let mirror_down_addr = addr & 0b111_1111_1111;
            self.cpu_wram[mirror_down_addr as usize]
        } else if addr <= PPU_MIRRORS_END {
            self.read_ppu_register(addr)
        } else if addr == OAM_DMA {
            self.note(BusFault::WriteOnly(addr));
            0
        } else if addr == JOYPAD {
            self.joypad.read()
        } else if addr < PRG_RAM_START {
            0
        } else if addr < PRG_ROM_START {
            self.read_prg_ram(addr)
        } else {
            self.read_prg_rom(addr)
        }
    }
}

impl Mem for Bus {
    open spec fn memory(&self) -> BusState {
        self@
    }

    fn mem_read(&mut self, addr: u16) -> (data: u8) {
        reveal(Bus::state);
        self.read_byte(addr)
    }

    fn mem_write(&mut self, addr: u16, data: u8) {
        reveal(Bus::state);
        reveal(BusState::write);
        if addr <= WRAM_END {
            proof {
                lemma_low_eleven_bits(addr);
            }
            let mirror_down_addr = addr & 0b111_1111_1111;
            self.cpu_wram[mirror_down_addr as usize] = data;
        } else if addr <= PPU_MIRRORS_END {
            self.write_ppu_register(addr, data);
        } else if addr == OAM_DMA {
            self.oam_dma(data);
        } else if addr == JOYPAD {
            self.joypad.write(data);
        } else if addr < PRG_RAM_START {
        } else if addr < PRG_ROM_START {
            self.write_to_prg_ram(addr, data);
        } else {
            self.note(BusFault::ReadOnly(addr));
        }
    }
}

} // verus!

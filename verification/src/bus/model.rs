//! What the bus is, as a mathematical value: the memory map, and what a
//! read, a write and a tick make of it.

use crate::bits::{hi_byte, lo_byte, word, wrap16};
use crate::joypad::Joypad;
use crate::ppu::model::{power_on, PpuState};
use crate::cartridge::Mirroring;
use vstd::prelude::*;

verus! {

/// Bytes of working memory.
pub const WRAM_SIZE: usize = 0x0800;

/// Bytes of cartridge memory that can be written.
pub const PRG_RAM_SIZE: usize = 0x2000;

/// Last address of the working memory and its mirrors.
pub const WRAM_END: u16 = 0x1FFF;

/// First address of the registers of the picture unit.
pub const PPU_START: u16 = 0x2000;

/// Last address of the mirrors of the registers of the picture unit.
pub const PPU_MIRRORS_END: u16 = 0x3FFF;

/// The address that starts a transfer into the sprite memory.
pub const OAM_DMA: u16 = 0x4014;

/// The address of the controller.
pub const JOYPAD: u16 = 0x4016;

/// First address of the writable cartridge memory.
pub const PRG_RAM_START: u16 = 0x6000;

/// First address of the program.
pub const PRG_ROM_START: u16 = 0x8000;

/// Cycles of the processor that have passed when it starts.
pub const START_CYCLES: usize = 7;

/// Dots of the picture unit per cycle of the processor.
pub const DOTS_PER_CYCLE: usize = 3;

/// Where an address of the processor leads.
pub enum Region {
    /// A cell of the working memory.
    WorkRam(int),
    /// A register of the picture unit, 0 to 7.
    PpuRegister(int),
    /// The trigger of the transfer into the sprite memory.
    OamDma,
    /// The controller.
    Joypad,
    /// A cell of the writable cartridge memory.
    PrgRam(int),
    /// An offset into the 32 KB window of the program.
    PrgRom(int),
    /// Nothing.
    Unmapped,
}

/// The memory map. The working memory repeats every 0x0800 bytes up to
/// 0x1fff, the eight registers of the picture unit repeat every 8 bytes up
/// to 0x3fff.
pub open spec fn decode(addr: u16) -> Region {
    if addr <= WRAM_END {
        Region::WorkRam(addr as int % WRAM_SIZE as int)
    } else if addr <= PPU_MIRRORS_END {
        Region::PpuRegister(addr as int % 8)
    } else if addr == OAM_DMA {
        Region::OamDma
    } else if addr == JOYPAD {
        Region::Joypad
    } else if addr < PRG_RAM_START {
        Region::Unmapped
    } else if addr < PRG_ROM_START {
        Region::PrgRam(addr - PRG_RAM_START)
    } else {
        Region::PrgRom(addr - PRG_ROM_START)
    }
}

/// An access that the hardware has no answer to. The bus lets it pass
/// without effect and keeps a note of the first one.
#[derive(Clone, Copy, Debug, PartialEq, Eq, Structural)]
pub enum BusFault {
    /// A read of a register that can only be written, at this address.
    WriteOnly(u16),
    /// A write of the status register or of the program, at this address.
    ReadOnly(u16),
    /// An access of the data port while the picture unit points at this
    /// address, which has no storage behind it.
    Video(u16),
}

/// The state of the bus.
#[verifier::ext_equal]
pub struct BusState {
    pub cpu_wram: Seq<u8>,
    pub prg_ram: Seq<u8>,
    pub prg_rom: Seq<u8>,
    pub ppu: PpuState,
    pub cycles: usize,
    pub joypad: Joypad,
    pub fault: Option<BusFault>,
}

impl BusState {
    /// The memories have their sizes, the program fills half of its window
    /// or all of it, and the picture unit is well-formed.
    pub open spec fn wf(self) -> bool {
        &&& self.cpu_wram.len() == WRAM_SIZE
        &&& self.prg_ram.len() == PRG_RAM_SIZE
        &&& (self.prg_rom.len() == 0x4000 || self.prg_rom.len() == 0x8000)
        &&& self.ppu.wf()
    }

    /// The state with a note of fault `f`, unless an earlier one is noted.
    pub open spec fn with_fault(self, f: BusFault) -> BusState {
        BusState {
            fault: if self.fault is Some {
                self.fault
            } else {
                Some(f)
            },
            ..self
        }
    }

    /// The byte of the program at an offset into its window. A program of
    /// 16 KB shows twice.
    pub open spec fn prg_rom_byte(self, offset: int) -> u8 {
        if self.prg_rom.len() == 0x4000 {
            self.prg_rom[offset % 0x4000]
        } else {
            self.prg_rom[offset]
        }
    }

    /// What a read returns, and the state after it.
    ///
    /// Working memory, cartridge memory and program answer with their byte.
    /// Status, sprite data and data port of the picture unit and the
    /// controller answer as they do, which changes them. A read of a
    /// write-only register, or of the data port where there is no storage,
    /// returns 0 and is noted as a fault. Everything else reads as 0.
    #[verifier::opaque]
    pub open spec fn read(self, addr: u16) -> (u8, BusState) {
        match decode(addr) {
            Region::WorkRam(i) => (self.cpu_wram[i], self),
            Region::PpuRegister(r) => {
                if r == 2 {
                    let (data, ppu) = self.ppu.read_status();
                    (data, BusState { ppu, ..self })
                } else if r == 4 {
                    (self.ppu.read_oam_data(), self)
                } else if r == 7 {
                    if self.ppu.data_readable() {
                        let (data, ppu) = self.ppu.read_data();
                        (data, BusState { ppu, ..self })
                    } else {
                        (0, self.with_fault(BusFault::Video(self.ppu.ppu_addr.address())))
                    }
                } else {
                    (0, self.with_fault(BusFault::WriteOnly(addr)))
                }
            },
            Region::OamDma => (0, self.with_fault(BusFault::WriteOnly(addr))),
            Region::Joypad => {
                let (data, joypad) = self.joypad.read_result();
                (data, BusState { joypad, ..self })
            },
            Region::PrgRam(i) => (self.prg_ram[i], self),
            Region::PrgRom(offset) => (self.prg_rom_byte(offset), self),
            Region::Unmapped => (0, self),
        }
    }

    /// The state after a write.
    ///
    /// Working memory and cartridge memory take the byte, the registers of
    /// the picture unit and the controller take it as they do, and 0x4014
    /// copies the page that the byte names into the sprite memory. A write of
    /// the status register, of the program, or of the data port where there
    /// is no storage, changes nothing and is noted as a fault. Everything
    /// else ignores the write.
    #[verifier::opaque]
    pub open spec fn write(self, addr: u16, data: u8) -> BusState {
        match decode(addr) {
            Region::WorkRam(i) => BusState { cpu_wram: self.cpu_wram.update(i, data), ..self },
            Region::PpuRegister(r) => {
                if r == 0 {
                    BusState { ppu: self.ppu.write_controller(data), ..self }
                } else if r == 1 {
                    BusState { ppu: self.ppu.write_mask(data), ..self }
                } else if r == 2 {
                    self.with_fault(BusFault::ReadOnly(addr))
                } else if r == 3 {
                    BusState { ppu: self.ppu.write_oam_addr(data), ..self }
                } else if r == 4 {
                    BusState { ppu: self.ppu.write_oam_data(data), ..self }
                } else if r == 5 {
                    BusState { ppu: self.ppu.write_scroll(data), ..self }
                } else if r == 6 {
                    BusState { ppu: self.ppu.write_addr(data), ..self }
                } else {
                    if self.ppu.data_writable() {
                        BusState { ppu: self.ppu.write_data(data), ..self }
                    } else {
                        self.with_fault(BusFault::Video(self.ppu.ppu_addr.address()))
                    }
                }
            },
            Region::OamDma => self.oam_dma(data),
            Region::Joypad => BusState { joypad: self.joypad.written(data), ..self },
            Region::PrgRam(i) => BusState { prg_ram: self.prg_ram.update(i, data), ..self },
            Region::PrgRom(offset) => self.with_fault(BusFault::ReadOnly(addr)),
            Region::Unmapped => self,
        }
    }

    /// What a look at an address shows, without changing anything.
    ///
    /// Memory shows its byte. Of the registers of the picture unit, control,
    /// mask, status, sprite address and sprite data show what they hold and
    /// the address register shows its whole address; the controller shows
    /// which buttons are down. What has nothing to show without a change
    /// shows 42: scroll, data port, the mirrors of the registers and the
    /// trigger of the sprite transfer. Everything else shows 0.
    pub open spec fn peek(self, addr: u16) -> u16 {
        if addr <= WRAM_END {
            self.cpu_wram[addr as int % WRAM_SIZE as int] as u16
        } else if addr == 0x2000 {
            self.ppu.controller.bits as u16
        } else if addr == 0x2001 {
            self.ppu.ppu_mask.bits as u16
        } else if addr == 0x2002 {
            self.ppu.status.bits as u16
        } else if addr == 0x2003 {
            self.ppu.oam_addr as u16
        } else if addr == 0x2004 {
            self.ppu.oam_data[self.ppu.oam_addr as int] as u16
        } else if addr == 0x2006 {
            self.ppu.ppu_addr.address()
        } else if addr <= PPU_MIRRORS_END || addr == OAM_DMA {
            NOTHING_TO_SHOW
        } else if addr == JOYPAD {
            self.joypad.button_status.bits as u16
        } else if addr < PRG_RAM_START {
            0
        } else if addr < PRG_ROM_START {
            self.prg_ram[addr - PRG_RAM_START] as u16
        } else {
            self.prg_rom_byte(addr - PRG_ROM_START) as u16
        }
    }

    /// The first `count` bytes of a page, read one after the other, and the
    /// state after these reads.
    pub open spec fn read_page(self, page: u8, count: nat) -> (Seq<u8>, BusState)
        decreases count,
    {
        if count == 0 {
            (Seq::empty(), self)
        } else {
            let (bytes, s) = self.read_page(page, (count - 1) as nat);
            let (data, s) = s.read((page as int * 256 + count - 1) as u16);
            (bytes.push(data), s)
        }
    }

    /// The state after page `page` was read and copied into the sprite
    /// memory, all at once.
    pub open spec fn oam_dma(self, page: u8) -> BusState {
        let (bytes, s) = self.read_page(page, 256);
        BusState { ppu: s.ppu.write_oam_dma(bytes), ..s }
    }

    /// What a read of a little-endian word returns, and the state after it.
    pub open spec fn read_u16(self, pos: u16) -> (u16, BusState) {
        let (lo, s) = self.read(pos);
        let (hi, s) = s.read(wrap16(pos + 1));
        (word(lo, hi), s)
    }

    /// The state after a write of a little-endian word.
    pub open spec fn write_u16(self, pos: u16, data: u16) -> BusState {
        self.write(pos, lo_byte(data)).write(wrap16(pos + 1), hi_byte(data))
    }

    /// The state after `cycles` cycles of the processor, and whether the
    /// interrupt of the picture unit rose in them: the cycle counter takes
    /// them, wrapping at the machine's word, and the picture unit runs three
    /// dots for each.
    pub open spec fn tick(self, cycles: usize) -> (BusState, bool) {
        let ppu = self.ppu.tick((cycles * DOTS_PER_CYCLE) as nat).0;
        (
            BusState {
                cycles: if self.cycles + cycles > usize::MAX {
                    (self.cycles + cycles - usize::MAX - 1) as usize
                } else {
                    (self.cycles + cycles) as usize
                },
                ppu,
                ..self
            },
            self.ppu.nmi_interrupt is None && ppu.nmi_interrupt is Some,
        )
    }

    /// The interrupt that is pending, if any, and the state after it was
    /// taken.
    pub open spec fn pull_nmi_status(self) -> (Option<u8>, BusState) {
        (
            self.ppu.nmi_interrupt,
            BusState { ppu: PpuState { nmi_interrupt: None, ..self.ppu }, ..self },
        )
    }

    /// The bus as it is switched on with a cartridge in it.
    pub open spec fn power_on(prg_rom: Seq<u8>, chr_rom: Seq<u8>, mirroring: Mirroring) -> BusState {
        BusState {
            cpu_wram: Seq::new(WRAM_SIZE as nat, |i: int| 0u8),
            prg_ram: Seq::new(PRG_RAM_SIZE as nat, |i: int| 0u8),
            prg_rom,
            ppu: power_on(chr_rom, mirroring),
            cycles: START_CYCLES,
            joypad: Joypad {
                strobe: false,
                button_index: 0,
                button_status: crate::joypad::JoypadButton { bits: 0 },
            },
            fault: None,
        }
    }
}

/// What a look at an address shows where a real read would change
/// something.
pub const NOTHING_TO_SHOW: u16 = 42;

/// Most cycles that one tick of the bus can take: the picture unit runs at
/// most one scanline per tick.
pub const TICK_LIMIT: usize = 113;

} // verus!

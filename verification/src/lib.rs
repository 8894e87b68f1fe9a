//! Instruction-level emulation of an 8-bit game console: a 6502-family
//! processor, its picture-processing unit and the memory bus between them.

pub mod bits;
pub mod bus;
pub mod cartridge;
pub mod cpu;
pub mod joypad;
pub mod ppu;
pub mod render;

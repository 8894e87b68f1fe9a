//! The instruction set as a table: for each opcode the operation, the
//! addressing mode, the length of the instruction in bytes and the cycles it
//! takes at least.

use crate::cpu::addressing::AddressingMode;
use crate::cpu::operations::Operation;
use vstd::prelude::*;

verus! {

/// One row of the table.
#[derive(Clone, Copy, Debug)]
pub struct OpCode {
    pub code: u8,
    pub op: Operation,
    pub bytes: u8,
    pub cycles: usize,
    pub addressing_mode: AddressingMode,
}

/// Most cycles that a row names.
pub const MAX_CYCLES: usize = 8;

impl OpCode {
    /// The row makes an instruction: one to three bytes and at most eight
    /// cycles.
    pub open spec fn wf(&self) -> bool {
        &&& 1 <= self.bytes <= 3
        &&& self.cycles <= MAX_CYCLES
    }

    pub fn new(
        code: u8,
        op: Operation,
        bytes: u8,
        cycles: usize,
        addressing_mode: AddressingMode,
    ) -> (r: Self)
        ensures
            r == (OpCode { code, op, bytes, cycles, addressing_mode }),
    {
        OpCode { code, op, bytes, cycles, addressing_mode }
    }
}

/// A row of the table, as the table hands it out.
pub open spec fn row(
    code: u8,
    op: Operation,
    bytes: u8,
    cycles: usize,
    addressing_mode: AddressingMode,
) -> Option<OpCode> {
    Some(OpCode { code, op, bytes, cycles, addressing_mode })
}

/// The table. Twenty-four opcodes have no row.
#[verifier::opaque]
pub open spec fn opcode_table(code: u8) -> Option<OpCode> {
    match code {
        0x69 => row(0x69, Operation::ADC, 2, 2, AddressingMode::Immediate),
        0x65 => row(0x65, Operation::ADC, 2, 3, AddressingMode::ZeroPage),
        0x75 => row(0x75, Operation::ADC, 2, 4, AddressingMode::ZeroPage_X),
        0x6d => row(0x6d, Operation::ADC, 3, 4, AddressingMode::Absolute),
        0x7d => row(0x7d, Operation::ADC, 3, 4, AddressingMode::Absolute_X),
        0x79 => row(0x79, Operation::ADC, 3, 4, AddressingMode::Absolute_Y),
        0x61 => row(0x61, Operation::ADC, 2, 6, AddressingMode::Indirect_X),
        0x71 => row(0x71, Operation::ADC, 2, 5, AddressingMode::Indirect_Y),
        0x29 => row(0x29, Operation::AND, 2, 2, AddressingMode::Immediate),
        0x25 => row(0x25, Operation::AND, 2, 3, AddressingMode::ZeroPage),
        0x35 => row(0x35, Operation::AND, 2, 4, AddressingMode::ZeroPage_X),
        0x2d => row(0x2d, Operation::AND, 3, 4, AddressingMode::Absolute),
        0x3d => row(0x3d, Operation::AND, 3, 4, AddressingMode::Absolute_X),
        0x39 => row(0x39, Operation::AND, 3, 4, AddressingMode::Absolute_Y),
        0x21 => row(0x21, Operation::AND, 2, 6, AddressingMode::Indirect_X),
        0x31 => row(0x31, Operation::AND, 2, 5, AddressingMode::Indirect_Y),
        0x0a => row(0x0a, Operation::ASL, 1, 2, AddressingMode::NoneAddressing),
        0x06 => row(0x06, Operation::ASL, 2, 5, AddressingMode::ZeroPage),
        0x16 => row(0x16, Operation::ASL, 2, 6, AddressingMode::ZeroPage_X),
        0x0e => row(0x0e, Operation::ASL, 3, 6, AddressingMode::Absolute),
        0x1e => row(0x1e, Operation::ASL, 3, 7, AddressingMode::Absolute_X),
        0x90 => row(0x90, Operation::BCC, 2, 2, AddressingMode::NoneAddressing),
        0xb0 => row(0xb0, Operation::BCS, 2, 2, AddressingMode::NoneAddressing),
        0xf0 => row(0xf0, Operation::BEQ, 2, 2, AddressingMode::NoneAddressing),
        0x24 => row(0x24, Operation::BIT, 2, 3, AddressingMode::ZeroPage),
        0x2c => row(0x2c, Operation::BIT, 3, 4, AddressingMode::Absolute),
        0x30 => row(0x30, Operation::BMI, 2, 2, AddressingMode::NoneAddressing),
        0xd0 => row(0xd0, Operation::BNE, 2, 2, AddressingMode::NoneAddressing),
        0x10 => row(0x10, Operation::BPL, 2, 2, AddressingMode::NoneAddressing),
        0x00 => row(0x00, Operation::BRK, 1, 7, AddressingMode::NoneAddressing),
        0x50 => row(0x50, Operation::BVC, 2, 2, AddressingMode::NoneAddressing),
        0x70 => row(0x70, Operation::BVS, 2, 2, AddressingMode::NoneAddressing),
        0x18 => row(0x18, Operation::CLC, 1, 2, AddressingMode::NoneAddressing),
        0xd8 => row(0xd8, Operation::CLD, 1, 2, AddressingMode::NoneAddressing),
        0x58 => row(0x58, Operation::CLI, 1, 2, AddressingMode::NoneAddressing),
        0xb8 => row(0xb8, Operation::CLV, 1, 2, AddressingMode::NoneAddressing),
        0xc9 => row(0xc9, Operation::CMP, 2, 2, AddressingMode::Immediate),
        0xc5 => row(0xc5, Operation::CMP, 2, 3, AddressingMode::ZeroPage),
        0xd5 => row(0xd5, Operation::CMP, 2, 4, AddressingMode::ZeroPage_X),
        0xcd => row(0xcd, Operation::CMP, 3, 4, AddressingMode::Absolute),
        0xdd => row(0xdd, Operation::CMP, 3, 4, AddressingMode::Absolute_X),
        0xd9 => row(0xd9, Operation::CMP, 3, 4, AddressingMode::Absolute_Y),
        0xc1 => row(0xc1, Operation::CMP, 2, 6, AddressingMode::Indirect_X),
        0xd1 => row(0xd1, Operation::CMP, 2, 5, AddressingMode::Indirect_Y),
        0xe0 => row(0xe0, Operation::CPX, 2, 2, AddressingMode::Immediate),
        0xe4 => row(0xe4, Operation::CPX, 2, 3, AddressingMode::ZeroPage),
        0xec => row(0xec, Operation::CPX, 3, 4, AddressingMode::Absolute),
        0xc0 => row(0xc0, Operation::CPY, 2, 2, AddressingMode::Immediate),
        0xc4 => row(0xc4, Operation::CPY, 2, 3, AddressingMode::ZeroPage),
        0xcc => row(0xcc, Operation::CPY, 3, 4, AddressingMode::Absolute),
        0xc6 => row(0xc6, Operation::DEC, 2, 5, AddressingMode::ZeroPage),
        0xd6 => row(0xd6, Operation::DEC, 2, 6, AddressingMode::ZeroPage_X),
        0xce => row(0xce, Operation::DEC, 3, 6, AddressingMode::Absolute),
        0xde => row(0xde, Operation::DEC, 3, 7, AddressingMode::Absolute_X),
        0xca => row(0xca, Operation::DEX, 1, 2, AddressingMode::NoneAddressing),
        0x88 => row(0x88, Operation::DEY, 1, 2, AddressingMode::NoneAddressing),
        0x49 => row(0x49, Operation::EOR, 2, 2, AddressingMode::Immediate),
        0x45 => row(0x45, Operation::EOR, 2, 3, AddressingMode::ZeroPage),
        0x55 => row(0x55, Operation::EOR, 2, 4, AddressingMode::ZeroPage_X),
        0x4d => row(0x4d, Operation::EOR, 3, 4, AddressingMode::Absolute),
        0x5d => row(0x5d, Operation::EOR, 3, 4, AddressingMode::Absolute_X),
        0x59 => row(0x59, Operation::EOR, 3, 4, AddressingMode::Absolute_Y),
        0x41 => row(0x41, Operation::EOR, 2, 6, AddressingMode::Indirect_X),
        0x51 => row(0x51, Operation::EOR, 2, 5, AddressingMode::Indirect_Y),
        0xe6 => row(0xe6, Operation::INC, 2, 5, AddressingMode::ZeroPage),
        0xf6 => row(0xf6, Operation::INC, 2, 6, AddressingMode::ZeroPage_X),
        0xee => row(0xee, Operation::INC, 3, 6, AddressingMode::Absolute),
        0xfe => row(0xfe, Operation::INC, 3, 7, AddressingMode::Absolute_X),
        0xe8 => row(0xe8, Operation::INX, 1, 2, AddressingMode::NoneAddressing),
        0xc8 => row(0xc8, Operation::INY, 1, 2, AddressingMode::NoneAddressing),
        0x4c => row(0x4c, Operation::JMP, 3, 3, AddressingMode::Absolute),
        0x6c => row(0x6c, Operation::JMP, 3, 5, AddressingMode::Indirect),
        0x20 => row(0x20, Operation::JSR, 3, 6, AddressingMode::NoneAddressing),
        0xa9 => row(0xa9, Operation::LDA, 2, 2, AddressingMode::Immediate),
        0xa5 => row(0xa5, Operation::LDA, 2, 3, AddressingMode::ZeroPage),
        0xb5 => row(0xb5, Operation::LDA, 2, 4, AddressingMode::ZeroPage_X),
        0xad => row(0xad, Operation::LDA, 3, 4, AddressingMode::Absolute),
        0xbd => row(0xbd, Operation::LDA, 3, 4, AddressingMode::Absolute_X),
        0xb9 => row(0xb9, Operation::LDA, 3, 4, AddressingMode::Absolute_Y),
        0xa1 => row(0xa1, Operation::LDA, 2, 6, AddressingMode::Indirect_X),
        0xb1 => row(0xb1, Operation::LDA, 2, 5, AddressingMode::Indirect_Y),
        0xa2 => row(0xa2, Operation::LDX, 2, 2, AddressingMode::Immediate),
        0xa6 => row(0xa6, Operation::LDX, 2, 3, AddressingMode::ZeroPage),
        0xb6 => row(0xb6, Operation::LDX, 2, 4, AddressingMode::ZeroPage_Y),
        0xae => row(0xae, Operation::LDX, 3, 4, AddressingMode::Absolute),
        0xbe => row(0xbe, Operation::LDX, 3, 4, AddressingMode::Absolute_Y),
        0xa0 => row(0xa0, Operation::LDY, 2, 2, AddressingMode::Immediate),
        0xa4 => row(0xa4, Operation::LDY, 2, 3, AddressingMode::ZeroPage),
        0xb4 => row(0xb4, Operation::LDY, 2, 4, AddressingMode::ZeroPage_X),
        0xac => row(0xac, Operation::LDY, 3, 4, AddressingMode::Absolute),
        0xbc => row(0xbc, Operation::LDY, 3, 4, AddressingMode::Absolute_X),
        0x4a => row(0x4a, Operation::LSR, 1, 2, AddressingMode::NoneAddressing),
        0x46 => row(0x46, Operation::LSR, 2, 5, AddressingMode::ZeroPage),
        0x56 => row(0x56, Operation::LSR, 2, 6, AddressingMode::ZeroPage_X),
        0x4e => row(0x4e, Operation::LSR, 3, 6, AddressingMode::Absolute),
        0x5e => row(0x5e, Operation::LSR, 3, 7, AddressingMode::Absolute_X),
        0xea => row(0xea, Operation::NOP, 1, 2, AddressingMode::NoneAddressing),
        0x09 => row(0x09, Operation::ORA, 2, 2, AddressingMode::Immediate),
        0x05 => row(0x05, Operation::ORA, 2, 3, AddressingMode::ZeroPage),
        0x15 => row(0x15, Operation::ORA, 2, 4, AddressingMode::ZeroPage_X),
        0x0d => row(0x0d, Operation::ORA, 3, 4, AddressingMode::Absolute),
        0x1d => row(0x1d, Operation::ORA, 3, 4, AddressingMode::Absolute_X),
        0x19 => row(0x19, Operation::ORA, 3, 4, AddressingMode::Absolute_Y),
        0x01 => row(0x01, Operation::ORA, 2, 6, AddressingMode::Indirect_X),
        0x11 => row(0x11, Operation::ORA, 2, 5, AddressingMode::Indirect_Y),
        0x48 => row(0x48, Operation::PHA, 1, 3, AddressingMode::NoneAddressing),
        0x08 => row(0x08, Operation::PHP, 1, 3, AddressingMode::NoneAddressing),
        0x68 => row(0x68, Operation::PLA, 1, 4, AddressingMode::NoneAddressing),
        0x28 => row(0x28, Operation::PLP, 1, 4, AddressingMode::NoneAddressing),
        0x2a => row(0x2a, Operation::ROL, 1, 2, AddressingMode::NoneAddressing),
        0x26 => row(0x26, Operation::ROL, 2, 5, AddressingMode::ZeroPage),
        0x36 => row(0x36, Operation::ROL, 2, 6, AddressingMode::ZeroPage_X),
        0x2e => row(0x2e, Operation::ROL, 3, 6, AddressingMode::Absolute),
        0x3e => row(0x3e, Operation::ROL, 3, 7, AddressingMode::Absolute_X),
        0x6a => row(0x6a, Operation::ROR, 1, 2, AddressingMode::NoneAddressing),
        0x66 => row(0x66, Operation::ROR, 2, 5, AddressingMode::ZeroPage),
        0x76 => row(0x76, Operation::ROR, 2, 6, AddressingMode::ZeroPage_X),
        0x6e => row(0x6e, Operation::ROR, 3, 6, AddressingMode::Absolute),
        0x7e => row(0x7e, Operation::ROR, 3, 7, AddressingMode::Absolute_X),
        0x40 => row(0x40, Operation::RTI, 1, 6, AddressingMode::NoneAddressing),
        0x60 => row(0x60, Operation::RTS, 1, 6, AddressingMode::NoneAddressing),
        0xe9 => row(0xe9, Operation::SBC, 2, 2, AddressingMode::Immediate),
        0xe5 => row(0xe5, Operation::SBC, 2, 3, AddressingMode::ZeroPage),
        0xf5 => row(0xf5, Operation::SBC, 2, 4, AddressingMode::ZeroPage_X),
        0xed => row(0xed, Operation::SBC, 3, 4, AddressingMode::Absolute),
        0xfd => row(0xfd, Operation::SBC, 3, 4, AddressingMode::Absolute_X),
        0xf9 => row(0xf9, Operation::SBC, 3, 4, AddressingMode::Absolute_Y),
        0xe1 => row(0xe1, Operation::SBC, 2, 6, AddressingMode::Indirect_X),
        0xf1 => row(0xf1, Operation::SBC, 2, 5, AddressingMode::Indirect_Y),
        0x38 => row(0x38, Operation::SEC, 1, 2, AddressingMode::NoneAddressing),
        0x78 => row(0x78, Operation::SEI, 1, 2, AddressingMode::NoneAddressing),
        0xf8 => row(0xf8, Operation::SED, 1, 2, AddressingMode::NoneAddressing),
        0x85 => row(0x85, Operation::STA, 2, 3, AddressingMode::ZeroPage),
        0x95 => row(0x95, Operation::STA, 2, 4, AddressingMode::ZeroPage_X),
        0x8d => row(0x8d, Operation::STA, 3, 4, AddressingMode::Absolute),
        0x9d => row(0x9d, Operation::STA, 3, 5, AddressingMode::Absolute_X),
        0x99 => row(0x99, Operation::STA, 3, 5, AddressingMode::Absolute_Y),
        0x81 => row(0x81, Operation::STA, 2, 6, AddressingMode::Indirect_X),
        0x91 => row(0x91, Operation::STA, 2, 6, AddressingMode::Indirect_Y),
        0x86 => row(0x86, Operation::STX, 2, 3, AddressingMode::ZeroPage),
        0x96 => row(0x96, Operation::STX, 2, 4, AddressingMode::ZeroPage_Y),
        0x8e => row(0x8e, Operation::STX, 3, 4, AddressingMode::Absolute),
        0x84 => row(0x84, Operation::STY, 2, 3, AddressingMode::ZeroPage),
        0x94 => row(0x94, Operation::STY, 2, 4, AddressingMode::ZeroPage_X),
        0x8c => row(0x8c, Operation::STY, 3, 4, AddressingMode::Absolute),
        0xaa => row(0xaa, Operation::TAX, 1, 2, AddressingMode::NoneAddressing),
        0xa8 => row(0xa8, Operation::TAY, 1, 2, AddressingMode::NoneAddressing),
        0xba => row(0xba, Operation::TSX, 1, 2, AddressingMode::NoneAddressing),
        0x9a => row(0x9a, Operation::TXS, 1, 2, AddressingMode::NoneAddressing),
        0x8a => row(0x8a, Operation::TXA, 1, 2, AddressingMode::NoneAddressing),
        0x98 => row(0x98, Operation::TYA, 1, 2, AddressingMode::NoneAddressing),
        0x1a => row(0x1a, Operation::NOP, 1, 2, AddressingMode::NoneAddressing),
        0x3a => row(0x3a, Operation::NOP, 1, 2, AddressingMode::NoneAddressing),
        0x5a => row(0x5a, Operation::NOP, 1, 2, AddressingMode::NoneAddressing),
        0x7a => row(0x7a, Operation::NOP, 1, 2, AddressingMode::NoneAddressing),
        0xda => row(0xda, Operation::NOP, 1, 2, AddressingMode::NoneAddressing),
        0xfa => row(0xfa, Operation::NOP, 1, 2, AddressingMode::NoneAddressing),
        0x80 => row(0x80, Operation::NOP, 2, 2, AddressingMode::Immediate),
        0x82 => row(0x82, Operation::NOP, 2, 2, AddressingMode::Immediate),
        0x89 => row(0x89, Operation::NOP, 2, 2, AddressingMode::Immediate),
        0xc2 => row(0xc2, Operation::NOP, 2, 2, AddressingMode::Immediate),
        0xe2 => row(0xe2, Operation::NOP, 2, 2, AddressingMode::Immediate),
        0x04 => row(0x04, Operation::NOP, 2, 3, AddressingMode::ZeroPage),
        0x44 => row(0x44, Operation::NOP, 2, 3, AddressingMode::ZeroPage),
        0x64 => row(0x64, Operation::NOP, 2, 3, AddressingMode::ZeroPage),
        0x14 => row(0x14, Operation::NOP, 2, 4, AddressingMode::ZeroPage_X),
        0x34 => row(0x34, Operation::NOP, 2, 4, AddressingMode::ZeroPage_X),
        0x54 => row(0x54, Operation::NOP, 2, 4, AddressingMode::ZeroPage_X),
        0x74 => row(0x74, Operation::NOP, 2, 4, AddressingMode::ZeroPage_X),
        0xd4 => row(0xd4, Operation::NOP, 2, 4, AddressingMode::ZeroPage_X),
        0xf4 => row(0xf4, Operation::NOP, 2, 4, AddressingMode::ZeroPage_X),
        0x0c => row(0x0c, Operation::NOP, 3, 4, AddressingMode::Absolute),
        0x1c => row(0x1c, Operation::NOP, 3, 4, AddressingMode::Absolute_X),
        0x3c => row(0x3c, Operation::NOP, 3, 4, AddressingMode::Absolute_X),
        0x5c => row(0x5c, Operation::NOP, 3, 4, AddressingMode::Absolute_X),
        0x7c => row(0x7c, Operation::NOP, 3, 4, AddressingMode::Absolute_X),
        0xdc => row(0xdc, Operation::NOP, 3, 4, AddressingMode::Absolute_X),
        0xfc => row(0xfc, Operation::NOP, 3, 4, AddressingMode::Absolute_X),
        0xa3 => row(0xa3, Operation::LAX, 2, 6, AddressingMode::Indirect_X),
        0xab => row(0xab, Operation::LAX, 2, 2, AddressingMode::Immediate),
        0xa7 => row(0xa7, Operation::LAX, 2, 3, AddressingMode::ZeroPage),
        0xb7 => row(0xb7, Operation::LAX, 2, 4, AddressingMode::ZeroPage_Y),
        0xb3 => row(0xb3, Operation::LAX, 2, 5, AddressingMode::Indirect_Y),
        0xaf => row(0xaf, Operation::LAX, 3, 4, AddressingMode::Absolute),
        0xbf => row(0xbf, Operation::LAX, 3, 4, AddressingMode::Absolute_Y),
        0x87 => row(0x87, Operation::SAX, 2, 3, AddressingMode::ZeroPage),
        0x97 => row(0x97, Operation::SAX, 2, 4, AddressingMode::ZeroPage_Y),
        0x8f => row(0x8f, Operation::SAX, 3, 4, AddressingMode::Absolute),
        0x83 => row(0x83, Operation::SAX, 2, 6, AddressingMode::Indirect_X),
        0xeb => row(0xeb, Operation::SBC, 2, 2, AddressingMode::Immediate),
        0xc7 => row(0xc7, Operation::DCP, 2, 5, AddressingMode::ZeroPage),
        0xd7 => row(0xd7, Operation::DCP, 2, 6, AddressingMode::ZeroPage_X),
        0xcf => row(0xcf, Operation::DCP, 3, 6, AddressingMode::Absolute),
        0xdf => row(0xdf, Operation::DCP, 3, 7, AddressingMode::Absolute_X),
        0xdb => row(0xdb, Operation::DCP, 3, 7, AddressingMode::Absolute_Y),
        0xd3 => row(0xd3, Operation::DCP, 2, 8, AddressingMode::Indirect_Y),
        0xc3 => row(0xc3, Operation::DCP, 2, 8, AddressingMode::Indirect_X),
        0xe7 => row(0xe7, Operation::ISB, 2, 5, AddressingMode::ZeroPage),
        0xf7 => row(0xf7, Operation::ISB, 2, 6, AddressingMode::ZeroPage_X),
        0xef => row(0xef, Operation::ISB, 3, 6, AddressingMode::Absolute),
        0xff => row(0xff, Operation::ISB, 3, 7, AddressingMode::Absolute_X),
        0xfb => row(0xfb, Operation::ISB, 3, 7, AddressingMode::Absolute_Y),
        0xe3 => row(0xe3, Operation::ISB, 2, 8, AddressingMode::Indirect_X),
        0xf3 => row(0xf3, Operation::ISB, 2, 8, AddressingMode::Indirect_Y),
        0x07 => row(0x07, Operation::SLO, 2, 5, AddressingMode::ZeroPage),
        0x17 => row(0x17, Operation::SLO, 2, 6, AddressingMode::ZeroPage_X),
        0x0f => row(0x0f, Operation::SLO, 3, 6, AddressingMode::Absolute),
        0x1f => row(0x1f, Operation::SLO, 3, 7, AddressingMode::Absolute_X),
        0x1b => row(0x1b, Operation::SLO, 3, 7, AddressingMode::Absolute_Y),
        0x03 => row(0x03, Operation::SLO, 2, 8, AddressingMode::Indirect_X),
        0x13 => row(0x13, Operation::SLO, 2, 8, AddressingMode::Indirect_Y),
        0x27 => row(0x27, Operation::RLA, 2, 5, AddressingMode::ZeroPage),
        0x37 => row(0x37, Operation::RLA, 2, 6, AddressingMode::ZeroPage_X),
        0x2f => row(0x2f, Operation::RLA, 3, 6, AddressingMode::Absolute),
        0x3f => row(0x3f, Operation::RLA, 3, 7, AddressingMode::Absolute_X),
        0x3b => row(0x3b, Operation::RLA, 3, 7, AddressingMode::Absolute_Y),
        0x33 => row(0x33, Operation::RLA, 2, 8, AddressingMode::Indirect_Y),
        0x23 => row(0x23, Operation::RLA, 2, 8, AddressingMode::Indirect_X),
        0x47 => row(0x47, Operation::SRE, 2, 5, AddressingMode::ZeroPage),
        0x57 => row(0x57, Operation::SRE, 2, 6, AddressingMode::ZeroPage_X),
        0x4f => row(0x4f, Operation::SRE, 3, 6, AddressingMode::Absolute),
        0x5f => row(0x5f, Operation::SRE, 3, 7, AddressingMode::Absolute_X),
        0x5b => row(0x5b, Operation::SRE, 3, 7, AddressingMode::Absolute_Y),
        0x43 => row(0x43, Operation::SRE, 2, 8, AddressingMode::Indirect_X),
        0x53 => row(0x53, Operation::SRE, 2, 8, AddressingMode::Indirect_Y),
        0x67 => row(0x67, Operation::RRA, 2, 5, AddressingMode::ZeroPage),
        0x77 => row(0x77, Operation::RRA, 2, 6, AddressingMode::ZeroPage_X),
        0x6f => row(0x6f, Operation::RRA, 3, 6, AddressingMode::Absolute),
        0x7f => row(0x7f, Operation::RRA, 3, 7, AddressingMode::Absolute_X),
        0x7b => row(0x7b, Operation::RRA, 3, 7, AddressingMode::Absolute_Y),
        0x63 => row(0x63, Operation::RRA, 2, 8, AddressingMode::Indirect_X),
        0x73 => row(0x73, Operation::RRA, 2, 8, AddressingMode::Indirect_Y),
        _ => None,
    }
}

/// The row of an opcode, if it has one.
pub fn lookup(code: u8) -> (r: Option<OpCode>)
    ensures
        r == opcode_table(code),
        r matches Some(entry) ==> entry.wf() && entry.code == code,
{
    reveal(opcode_table);
    match code {
        0x69 => Some(OpCode::new(0x69, Operation::ADC, 2, 2, AddressingMode::Immediate)),
        0x65 => Some(OpCode::new(0x65, Operation::ADC, 2, 3, AddressingMode::ZeroPage)),
        0x75 => Some(OpCode::new(0x75, Operation::ADC, 2, 4, AddressingMode::ZeroPage_X)),
        0x6d => Some(OpCode::new(0x6d, Operation::ADC, 3, 4, AddressingMode::Absolute)),
        0x7d => Some(OpCode::new(0x7d, Operation::ADC, 3, 4, AddressingMode::Absolute_X)),
        0x79 => Some(OpCode::new(0x79, Operation::ADC, 3, 4, AddressingMode::Absolute_Y)),
        0x61 => Some(OpCode::new(0x61, Operation::ADC, 2, 6, AddressingMode::Indirect_X)),
        0x71 => Some(OpCode::new(0x71, Operation::ADC, 2, 5, AddressingMode::Indirect_Y)),
        0x29 => Some(OpCode::new(0x29, Operation::AND, 2, 2, AddressingMode::Immediate)),
        0x25 => Some(OpCode::new(0x25, Operation::AND, 2, 3, AddressingMode::ZeroPage)),
        0x35 => Some(OpCode::new(0x35, Operation::AND, 2, 4, AddressingMode::ZeroPage_X)),
        0x2d => Some(OpCode::new(0x2d, Operation::AND, 3, 4, AddressingMode::Absolute)),
        0x3d => Some(OpCode::new(0x3d, Operation::AND, 3, 4, AddressingMode::Absolute_X)),
        0x39 => Some(OpCode::new(0x39, Operation::AND, 3, 4, AddressingMode::Absolute_Y)),
        0x21 => Some(OpCode::new(0x21, Operation::AND, 2, 6, AddressingMode::Indirect_X)),
        0x31 => Some(OpCode::new(0x31, Operation::AND, 2, 5, AddressingMode::Indirect_Y)),
        0x0a => Some(OpCode::new(0x0a, Operation::ASL, 1, 2, AddressingMode::NoneAddressing)),
        0x06 => Some(OpCode::new(0x06, Operation::ASL, 2, 5, AddressingMode::ZeroPage)),
        0x16 => Some(OpCode::new(0x16, Operation::ASL, 2, 6, AddressingMode::ZeroPage_X)),
        0x0e => Some(OpCode::new(0x0e, Operation::ASL, 3, 6, AddressingMode::Absolute)),
        0x1e => Some(OpCode::new(0x1e, Operation::ASL, 3, 7, AddressingMode::Absolute_X)),
        0x90 => Some(OpCode::new(0x90, Operation::BCC, 2, 2, AddressingMode::NoneAddressing)),
        0xb0 => Some(OpCode::new(0xb0, Operation::BCS, 2, 2, AddressingMode::NoneAddressing)),
        0xf0 => Some(OpCode::new(0xf0, Operation::BEQ, 2, 2, AddressingMode::NoneAddressing)),
        0x24 => Some(OpCode::new(0x24, Operation::BIT, 2, 3, AddressingMode::ZeroPage)),
        0x2c => Some(OpCode::new(0x2c, Operation::BIT, 3, 4, AddressingMode::Absolute)),
        0x30 => Some(OpCode::new(0x30, Operation::BMI, 2, 2, AddressingMode::NoneAddressing)),
        0xd0 => Some(OpCode::new(0xd0, Operation::BNE, 2, 2, AddressingMode::NoneAddressing)),
        0x10 => Some(OpCode::new(0x10, Operation::BPL, 2, 2, AddressingMode::NoneAddressing)),
        0x00 => Some(OpCode::new(0x00, Operation::BRK, 1, 7, AddressingMode::NoneAddressing)),
        0x50 => Some(OpCode::new(0x50, Operation::BVC, 2, 2, AddressingMode::NoneAddressing)),
        0x70 => Some(OpCode::new(0x70, Operation::BVS, 2, 2, AddressingMode::NoneAddressing)),
        0x18 => Some(OpCode::new(0x18, Operation::CLC, 1, 2, AddressingMode::NoneAddressing)),
        0xd8 => Some(OpCode::new(0xd8, Operation::CLD, 1, 2, AddressingMode::NoneAddressing)),
        0x58 => Some(OpCode::new(0x58, Operation::CLI, 1, 2, AddressingMode::NoneAddressing)),
        0xb8 => Some(OpCode::new(0xb8, Operation::CLV, 1, 2, AddressingMode::NoneAddressing)),
        0xc9 => Some(OpCode::new(0xc9, Operation::CMP, 2, 2, AddressingMode::Immediate)),
        0xc5 => Some(OpCode::new(0xc5, Operation::CMP, 2, 3, AddressingMode::ZeroPage)),
        0xd5 => Some(OpCode::new(0xd5, Operation::CMP, 2, 4, AddressingMode::ZeroPage_X)),
        0xcd => Some(OpCode::new(0xcd, Operation::CMP, 3, 4, AddressingMode::Absolute)),
        0xdd => Some(OpCode::new(0xdd, Operation::CMP, 3, 4, AddressingMode::Absolute_X)),
        0xd9 => Some(OpCode::new(0xd9, Operation::CMP, 3, 4, AddressingMode::Absolute_Y)),
        0xc1 => Some(OpCode::new(0xc1, Operation::CMP, 2, 6, AddressingMode::Indirect_X)),
        0xd1 => Some(OpCode::new(0xd1, Operation::CMP, 2, 5, AddressingMode::Indirect_Y)),
        0xe0 => Some(OpCode::new(0xe0, Operation::CPX, 2, 2, AddressingMode::Immediate)),
        0xe4 => Some(OpCode::new(0xe4, Operation::CPX, 2, 3, AddressingMode::ZeroPage)),
        0xec => Some(OpCode::new(0xec, Operation::CPX, 3, 4, AddressingMode::Absolute)),
        0xc0 => Some(OpCode::new(0xc0, Operation::CPY, 2, 2, AddressingMode::Immediate)),
        0xc4 => Some(OpCode::new(0xc4, Operation::CPY, 2, 3, AddressingMode::ZeroPage)),
        0xcc => Some(OpCode::new(0xcc, Operation::CPY, 3, 4, AddressingMode::Absolute)),
        0xc6 => Some(OpCode::new(0xc6, Operation::DEC, 2, 5, AddressingMode::ZeroPage)),
        0xd6 => Some(OpCode::new(0xd6, Operation::DEC, 2, 6, AddressingMode::ZeroPage_X)),
        0xce => Some(OpCode::new(0xce, Operation::DEC, 3, 6, AddressingMode::Absolute)),
        0xde => Some(OpCode::new(0xde, Operation::DEC, 3, 7, AddressingMode::Absolute_X)),
        0xca => Some(OpCode::new(0xca, Operation::DEX, 1, 2, AddressingMode::NoneAddressing)),
        0x88 => Some(OpCode::new(0x88, Operation::DEY, 1, 2, AddressingMode::NoneAddressing)),
        0x49 => Some(OpCode::new(0x49, Operation::EOR, 2, 2, AddressingMode::Immediate)),
        0x45 => Some(OpCode::new(0x45, Operation::EOR, 2, 3, AddressingMode::ZeroPage)),
        0x55 => Some(OpCode::new(0x55, Operation::EOR, 2, 4, AddressingMode::ZeroPage_X)),
        0x4d => Some(OpCode::new(0x4d, Operation::EOR, 3, 4, AddressingMode::Absolute)),
        0x5d => Some(OpCode::new(0x5d, Operation::EOR, 3, 4, AddressingMode::Absolute_X)),
        0x59 => Some(OpCode::new(0x59, Operation::EOR, 3, 4, AddressingMode::Absolute_Y)),
        0x41 => Some(OpCode::new(0x41, Operation::EOR, 2, 6, AddressingMode::Indirect_X)),
        0x51 => Some(OpCode::new(0x51, Operation::EOR, 2, 5, AddressingMode::Indirect_Y)),
        0xe6 => Some(OpCode::new(0xe6, Operation::INC, 2, 5, AddressingMode::ZeroPage)),
        0xf6 => Some(OpCode::new(0xf6, Operation::INC, 2, 6, AddressingMode::ZeroPage_X)),
        0xee => Some(OpCode::new(0xee, Operation::INC, 3, 6, AddressingMode::Absolute)),
        0xfe => Some(OpCode::new(0xfe, Operation::INC, 3, 7, AddressingMode::Absolute_X)),
        0xe8 => Some(OpCode::new(0xe8, Operation::INX, 1, 2, AddressingMode::NoneAddressing)),
        0xc8 => Some(OpCode::new(0xc8, Operation::INY, 1, 2, AddressingMode::NoneAddressing)),
        0x4c => Some(OpCode::new(0x4c, Operation::JMP, 3, 3, AddressingMode::Absolute)),
        0x6c => Some(OpCode::new(0x6c, Operation::JMP, 3, 5, AddressingMode::Indirect)),
        0x20 => Some(OpCode::new(0x20, Operation::JSR, 3, 6, AddressingMode::NoneAddressing)),
        0xa9 => Some(OpCode::new(0xa9, Operation::LDA, 2, 2, AddressingMode::Immediate)),
        0xa5 => Some(OpCode::new(0xa5, Operation::LDA, 2, 3, AddressingMode::ZeroPage)),
        0xb5 => Some(OpCode::new(0xb5, Operation::LDA, 2, 4, AddressingMode::ZeroPage_X)),
        0xad => Some(OpCode::new(0xad, Operation::LDA, 3, 4, AddressingMode::Absolute)),
        0xbd => Some(OpCode::new(0xbd, Operation::LDA, 3, 4, AddressingMode::Absolute_X)),
        0xb9 => Some(OpCode::new(0xb9, Operation::LDA, 3, 4, AddressingMode::Absolute_Y)),
        0xa1 => Some(OpCode::new(0xa1, Operation::LDA, 2, 6, AddressingMode::Indirect_X)),
        0xb1 => Some(OpCode::new(0xb1, Operation::LDA, 2, 5, AddressingMode::Indirect_Y)),
        0xa2 => Some(OpCode::new(0xa2, Operation::LDX, 2, 2, AddressingMode::Immediate)),
        0xa6 => Some(OpCode::new(0xa6, Operation::LDX, 2, 3, AddressingMode::ZeroPage)),
        0xb6 => Some(OpCode::new(0xb6, Operation::LDX, 2, 4, AddressingMode::ZeroPage_Y)),
        0xae => Some(OpCode::new(0xae, Operation::LDX, 3, 4, AddressingMode::Absolute)),
        0xbe => Some(OpCode::new(0xbe, Operation::LDX, 3, 4, AddressingMode::Absolute_Y)),
        0xa0 => Some(OpCode::new(0xa0, Operation::LDY, 2, 2, AddressingMode::Immediate)),
        0xa4 => Some(OpCode::new(0xa4, Operation::LDY, 2, 3, AddressingMode::ZeroPage)),
        0xb4 => Some(OpCode::new(0xb4, Operation::LDY, 2, 4, AddressingMode::ZeroPage_X)),
        0xac => Some(OpCode::new(0xac, Operation::LDY, 3, 4, AddressingMode::Absolute)),
        0xbc => Some(OpCode::new(0xbc, Operation::LDY, 3, 4, AddressingMode::Absolute_X)),
        0x4a => Some(OpCode::new(0x4a, Operation::LSR, 1, 2, AddressingMode::NoneAddressing)),
        0x46 => Some(OpCode::new(0x46, Operation::LSR, 2, 5, AddressingMode::ZeroPage)),
        0x56 => Some(OpCode::new(0x56, Operation::LSR, 2, 6, AddressingMode::ZeroPage_X)),
        0x4e => Some(OpCode::new(0x4e, Operation::LSR, 3, 6, AddressingMode::Absolute)),
        0x5e => Some(OpCode::new(0x5e, Operation::LSR, 3, 7, AddressingMode::Absolute_X)),
        0xea => Some(OpCode::new(0xea, Operation::NOP, 1, 2, AddressingMode::NoneAddressing)),
        0x09 => Some(OpCode::new(0x09, Operation::ORA, 2, 2, AddressingMode::Immediate)),
        0x05 => Some(OpCode::new(0x05, Operation::ORA, 2, 3, AddressingMode::ZeroPage)),
        0x15 => Some(OpCode::new(0x15, Operation::ORA, 2, 4, AddressingMode::ZeroPage_X)),
        0x0d => Some(OpCode::new(0x0d, Operation::ORA, 3, 4, AddressingMode::Absolute)),
        0x1d => Some(OpCode::new(0x1d, Operation::ORA, 3, 4, AddressingMode::Absolute_X)),
        0x19 => Some(OpCode::new(0x19, Operation::ORA, 3, 4, AddressingMode::Absolute_Y)),
        0x01 => Some(OpCode::new(0x01, Operation::ORA, 2, 6, AddressingMode::Indirect_X)),
        0x11 => Some(OpCode::new(0x11, Operation::ORA, 2, 5, AddressingMode::Indirect_Y)),
        0x48 => Some(OpCode::new(0x48, Operation::PHA, 1, 3, AddressingMode::NoneAddressing)),
        0x08 => Some(OpCode::new(0x08, Operation::PHP, 1, 3, AddressingMode::NoneAddressing)),
        0x68 => Some(OpCode::new(0x68, Operation::PLA, 1, 4, AddressingMode::NoneAddressing)),
        0x28 => Some(OpCode::new(0x28, Operation::PLP, 1, 4, AddressingMode::NoneAddressing)),
        0x2a => Some(OpCode::new(0x2a, Operation::ROL, 1, 2, AddressingMode::NoneAddressing)),
        0x26 => Some(OpCode::new(0x26, Operation::ROL, 2, 5, AddressingMode::ZeroPage)),
        0x36 => Some(OpCode::new(0x36, Operation::ROL, 2, 6, AddressingMode::ZeroPage_X)),
        0x2e => Some(OpCode::new(0x2e, Operation::ROL, 3, 6, AddressingMode::Absolute)),
        0x3e => Some(OpCode::new(0x3e, Operation::ROL, 3, 7, AddressingMode::Absolute_X)),
        0x6a => Some(OpCode::new(0x6a, Operation::ROR, 1, 2, AddressingMode::NoneAddressing)),
        0x66 => Some(OpCode::new(0x66, Operation::ROR, 2, 5, AddressingMode::ZeroPage)),
        0x76 => Some(OpCode::new(0x76, Operation::ROR, 2, 6, AddressingMode::ZeroPage_X)),
        0x6e => Some(OpCode::new(0x6e, Operation::ROR, 3, 6, AddressingMode::Absolute)),
        0x7e => Some(OpCode::new(0x7e, Operation::ROR, 3, 7, AddressingMode::Absolute_X)),
        0x40 => Some(OpCode::new(0x40, Operation::RTI, 1, 6, AddressingMode::NoneAddressing)),
        0x60 => Some(OpCode::new(0x60, Operation::RTS, 1, 6, AddressingMode::NoneAddressing)),
        0xe9 => Some(OpCode::new(0xe9, Operation::SBC, 2, 2, AddressingMode::Immediate)),
        0xe5 => Some(OpCode::new(0xe5, Operation::SBC, 2, 3, AddressingMode::ZeroPage)),
        0xf5 => Some(OpCode::new(0xf5, Operation::SBC, 2, 4, AddressingMode::ZeroPage_X)),
        0xed => Some(OpCode::new(0xed, Operation::SBC, 3, 4, AddressingMode::Absolute)),
        0xfd => Some(OpCode::new(0xfd, Operation::SBC, 3, 4, AddressingMode::Absolute_X)),
        0xf9 => Some(OpCode::new(0xf9, Operation::SBC, 3, 4, AddressingMode::Absolute_Y)),
        0xe1 => Some(OpCode::new(0xe1, Operation::SBC, 2, 6, AddressingMode::Indirect_X)),
        0xf1 => Some(OpCode::new(0xf1, Operation::SBC, 2, 5, AddressingMode::Indirect_Y)),
        0x38 => Some(OpCode::new(0x38, Operation::SEC, 1, 2, AddressingMode::NoneAddressing)),
        0x78 => Some(OpCode::new(0x78, Operation::SEI, 1, 2, AddressingMode::NoneAddressing)),
        0xf8 => Some(OpCode::new(0xf8, Operation::SED, 1, 2, AddressingMode::NoneAddressing)),
        0x85 => Some(OpCode::new(0x85, Operation::STA, 2, 3, AddressingMode::ZeroPage)),
        0x95 => Some(OpCode::new(0x95, Operation::STA, 2, 4, AddressingMode::ZeroPage_X)),
        0x8d => Some(OpCode::new(0x8d, Operation::STA, 3, 4, AddressingMode::Absolute)),
        0x9d => Some(OpCode::new(0x9d, Operation::STA, 3, 5, AddressingMode::Absolute_X)),
        0x99 => Some(OpCode::new(0x99, Operation::STA, 3, 5, AddressingMode::Absolute_Y)),
        0x81 => Some(OpCode::new(0x81, Operation::STA, 2, 6, AddressingMode::Indirect_X)),
        0x91 => Some(OpCode::new(0x91, Operation::STA, 2, 6, AddressingMode::Indirect_Y)),
        0x86 => Some(OpCode::new(0x86, Operation::STX, 2, 3, AddressingMode::ZeroPage)),
        0x96 => Some(OpCode::new(0x96, Operation::STX, 2, 4, AddressingMode::ZeroPage_Y)),
        0x8e => Some(OpCode::new(0x8e, Operation::STX, 3, 4, AddressingMode::Absolute)),
        0x84 => Some(OpCode::new(0x84, Operation::STY, 2, 3, AddressingMode::ZeroPage)),
        0x94 => Some(OpCode::new(0x94, Operation::STY, 2, 4, AddressingMode::ZeroPage_X)),
        0x8c => Some(OpCode::new(0x8c, Operation::STY, 3, 4, AddressingMode::Absolute)),
        0xaa => Some(OpCode::new(0xaa, Operation::TAX, 1, 2, AddressingMode::NoneAddressing)),
        0xa8 => Some(OpCode::new(0xa8, Operation::TAY, 1, 2, AddressingMode::NoneAddressing)),
        0xba => Some(OpCode::new(0xba, Operation::TSX, 1, 2, AddressingMode::NoneAddressing)),
        0x9a => Some(OpCode::new(0x9a, Operation::TXS, 1, 2, AddressingMode::NoneAddressing)),
        0x8a => Some(OpCode::new(0x8a, Operation::TXA, 1, 2, AddressingMode::NoneAddressing)),
        0x98 => Some(OpCode::new(0x98, Operation::TYA, 1, 2, AddressingMode::NoneAddressing)),
        0x1a => Some(OpCode::new(0x1a, Operation::NOP, 1, 2, AddressingMode::NoneAddressing)),
        0x3a => Some(OpCode::new(0x3a, Operation::NOP, 1, 2, AddressingMode::NoneAddressing)),
        0x5a => Some(OpCode::new(0x5a, Operation::NOP, 1, 2, AddressingMode::NoneAddressing)),
        0x7a => Some(OpCode::new(0x7a, Operation::NOP, 1, 2, AddressingMode::NoneAddressing)),
        0xda => Some(OpCode::new(0xda, Operation::NOP, 1, 2, AddressingMode::NoneAddressing)),
        0xfa => Some(OpCode::new(0xfa, Operation::NOP, 1, 2, AddressingMode::NoneAddressing)),
        0x80 => Some(OpCode::new(0x80, Operation::NOP, 2, 2, AddressingMode::Immediate)),
        0x82 => Some(OpCode::new(0x82, Operation::NOP, 2, 2, AddressingMode::Immediate)),
        0x89 => Some(OpCode::new(0x89, Operation::NOP, 2, 2, AddressingMode::Immediate)),
        0xc2 => Some(OpCode::new(0xc2, Operation::NOP, 2, 2, AddressingMode::Immediate)),
        0xe2 => Some(OpCode::new(0xe2, Operation::NOP, 2, 2, AddressingMode::Immediate)),
        0x04 => Some(OpCode::new(0x04, Operation::NOP, 2, 3, AddressingMode::ZeroPage)),
        0x44 => Some(OpCode::new(0x44, Operation::NOP, 2, 3, AddressingMode::ZeroPage)),
        0x64 => Some(OpCode::new(0x64, Operation::NOP, 2, 3, AddressingMode::ZeroPage)),
        0x14 => Some(OpCode::new(0x14, Operation::NOP, 2, 4, AddressingMode::ZeroPage_X)),
        0x34 => Some(OpCode::new(0x34, Operation::NOP, 2, 4, AddressingMode::ZeroPage_X)),
        0x54 => Some(OpCode::new(0x54, Operation::NOP, 2, 4, AddressingMode::ZeroPage_X)),
        0x74 => Some(OpCode::new(0x74, Operation::NOP, 2, 4, AddressingMode::ZeroPage_X)),
        0xd4 => Some(OpCode::new(0xd4, Operation::NOP, 2, 4, AddressingMode::ZeroPage_X)),
        0xf4 => Some(OpCode::new(0xf4, Operation::NOP, 2, 4, AddressingMode::ZeroPage_X)),
        0x0c => Some(OpCode::new(0x0c, Operation::NOP, 3, 4, AddressingMode::Absolute)),
        0x1c => Some(OpCode::new(0x1c, Operation::NOP, 3, 4, AddressingMode::Absolute_X)),
        0x3c => Some(OpCode::new(0x3c, Operation::NOP, 3, 4, AddressingMode::Absolute_X)),
        0x5c => Some(OpCode::new(0x5c, Operation::NOP, 3, 4, AddressingMode::Absolute_X)),
        0x7c => Some(OpCode::new(0x7c, Operation::NOP, 3, 4, AddressingMode::Absolute_X)),
        0xdc => Some(OpCode::new(0xdc, Operation::NOP, 3, 4, AddressingMode::Absolute_X)),
        0xfc => Some(OpCode::new(0xfc, Operation::NOP, 3, 4, AddressingMode::Absolute_X)),
        0xa3 => Some(OpCode::new(0xa3, Operation::LAX, 2, 6, AddressingMode::Indirect_X)),
        0xab => Some(OpCode::new(0xab, Operation::LAX, 2, 2, AddressingMode::Immediate)),
        0xa7 => Some(OpCode::new(0xa7, Operation::LAX, 2, 3, AddressingMode::ZeroPage)),
        0xb7 => Some(OpCode::new(0xb7, Operation::LAX, 2, 4, AddressingMode::ZeroPage_Y)),
        0xb3 => Some(OpCode::new(0xb3, Operation::LAX, 2, 5, AddressingMode::Indirect_Y)),
        0xaf => Some(OpCode::new(0xaf, Operation::LAX, 3, 4, AddressingMode::Absolute)),
        0xbf => Some(OpCode::new(0xbf, Operation::LAX, 3, 4, AddressingMode::Absolute_Y)),
        0x87 => Some(OpCode::new(0x87, Operation::SAX, 2, 3, AddressingMode::ZeroPage)),
        0x97 => Some(OpCode::new(0x97, Operation::SAX, 2, 4, AddressingMode::ZeroPage_Y)),
        0x8f => Some(OpCode::new(0x8f, Operation::SAX, 3, 4, AddressingMode::Absolute)),
        0x83 => Some(OpCode::new(0x83, Operation::SAX, 2, 6, AddressingMode::Indirect_X)),
        0xeb => Some(OpCode::new(0xeb, Operation::SBC, 2, 2, AddressingMode::Immediate)),
        0xc7 => Some(OpCode::new(0xc7, Operation::DCP, 2, 5, AddressingMode::ZeroPage)),
        0xd7 => Some(OpCode::new(0xd7, Operation::DCP, 2, 6, AddressingMode::ZeroPage_X)),
        0xcf => Some(OpCode::new(0xcf, Operation::DCP, 3, 6, AddressingMode::Absolute)),
        0xdf => Some(OpCode::new(0xdf, Operation::DCP, 3, 7, AddressingMode::Absolute_X)),
        0xdb => Some(OpCode::new(0xdb, Operation::DCP, 3, 7, AddressingMode::Absolute_Y)),
        0xd3 => Some(OpCode::new(0xd3, Operation::DCP, 2, 8, AddressingMode::Indirect_Y)),
        0xc3 => Some(OpCode::new(0xc3, Operation::DCP, 2, 8, AddressingMode::Indirect_X)),
        0xe7 => Some(OpCode::new(0xe7, Operation::ISB, 2, 5, AddressingMode::ZeroPage)),
        0xf7 => Some(OpCode::new(0xf7, Operation::ISB, 2, 6, AddressingMode::ZeroPage_X)),
        0xef => Some(OpCode::new(0xef, Operation::ISB, 3, 6, AddressingMode::Absolute)),
        0xff => Some(OpCode::new(0xff, Operation::ISB, 3, 7, AddressingMode::Absolute_X)),
        0xfb => Some(OpCode::new(0xfb, Operation::ISB, 3, 7, AddressingMode::Absolute_Y)),
        0xe3 => Some(OpCode::new(0xe3, Operation::ISB, 2, 8, AddressingMode::Indirect_X)),
        0xf3 => Some(OpCode::new(0xf3, Operation::ISB, 2, 8, AddressingMode::Indirect_Y)),
        0x07 => Some(OpCode::new(0x07, Operation::SLO, 2, 5, AddressingMode::ZeroPage)),
        0x17 => Some(OpCode::new(0x17, Operation::SLO, 2, 6, AddressingMode::ZeroPage_X)),
        0x0f => Some(OpCode::new(0x0f, Operation::SLO, 3, 6, AddressingMode::Absolute)),
        0x1f => Some(OpCode::new(0x1f, Operation::SLO, 3, 7, AddressingMode::Absolute_X)),
        0x1b => Some(OpCode::new(0x1b, Operation::SLO, 3, 7, AddressingMode::Absolute_Y)),
        0x03 => Some(OpCode::new(0x03, Operation::SLO, 2, 8, AddressingMode::Indirect_X)),
        0x13 => Some(OpCode::new(0x13, Operation::SLO, 2, 8, AddressingMode::Indirect_Y)),
        0x27 => Some(OpCode::new(0x27, Operation::RLA, 2, 5, AddressingMode::ZeroPage)),
        0x37 => Some(OpCode::new(0x37, Operation::RLA, 2, 6, AddressingMode::ZeroPage_X)),
        0x2f => Some(OpCode::new(0x2f, Operation::RLA, 3, 6, AddressingMode::Absolute)),
        0x3f => Some(OpCode::new(0x3f, Operation::RLA, 3, 7, AddressingMode::Absolute_X)),
        0x3b => Some(OpCode::new(0x3b, Operation::RLA, 3, 7, AddressingMode::Absolute_Y)),
        0x33 => Some(OpCode::new(0x33, Operation::RLA, 2, 8, AddressingMode::Indirect_Y)),
        0x23 => Some(OpCode::new(0x23, Operation::RLA, 2, 8, AddressingMode::Indirect_X)),
        0x47 => Some(OpCode::new(0x47, Operation::SRE, 2, 5, AddressingMode::ZeroPage)),
        0x57 => Some(OpCode::new(0x57, Operation::SRE, 2, 6, AddressingMode::ZeroPage_X)),
        0x4f => Some(OpCode::new(0x4f, Operation::SRE, 3, 6, AddressingMode::Absolute)),
        0x5f => Some(OpCode::new(0x5f, Operation::SRE, 3, 7, AddressingMode::Absolute_X)),
        0x5b => Some(OpCode::new(0x5b, Operation::SRE, 3, 7, AddressingMode::Absolute_Y)),
        0x43 => Some(OpCode::new(0x43, Operation::SRE, 2, 8, AddressingMode::Indirect_X)),
        0x53 => Some(OpCode::new(0x53, Operation::SRE, 2, 8, AddressingMode::Indirect_Y)),
        0x67 => Some(OpCode::new(0x67, Operation::RRA, 2, 5, AddressingMode::ZeroPage)),
        0x77 => Some(OpCode::new(0x77, Operation::RRA, 2, 6, AddressingMode::ZeroPage_X)),
        0x6f => Some(OpCode::new(0x6f, Operation::RRA, 3, 6, AddressingMode::Absolute)),
        0x7f => Some(OpCode::new(0x7f, Operation::RRA, 3, 7, AddressingMode::Absolute_X)),
        0x7b => Some(OpCode::new(0x7b, Operation::RRA, 3, 7, AddressingMode::Absolute_Y)),
        0x63 => Some(OpCode::new(0x63, Operation::RRA, 2, 8, AddressingMode::Indirect_X)),
        0x73 => Some(OpCode::new(0x73, Operation::RRA, 2, 8, AddressingMode::Indirect_Y)),
        _ => None,
    }
}

/// The opcode belongs to an instruction that the manufacturer never
/// documented, and a trace marks it with a star.
pub open spec fn unofficial(code: u8) -> bool {
    ||| code == 0x1a
    ||| code == 0x3a
    ||| code == 0x5a
    ||| code == 0x7a
    ||| code == 0xda
    ||| code == 0xfa
    ||| code == 0x04
    ||| code == 0x44
    ||| code == 0x64
    ||| code == 0x14
    ||| code == 0x34
    ||| code == 0x54
    ||| code == 0x74
    ||| code == 0xd4
    ||| code == 0xf4
    ||| code == 0x0c
    ||| code == 0x1c
    ||| code == 0x3c
    ||| code == 0x5c
    ||| code == 0x7c
    ||| code == 0xdc
    ||| code == 0xfc
    ||| code == 0x80
    ||| code == 0xa3
    ||| code == 0xab
    ||| code == 0xa7
    ||| code == 0xb7
    ||| code == 0xb3
    ||| code == 0xaf
    ||| code == 0xbf
    ||| code == 0xeb
    ||| code == 0xc7
    ||| code == 0xd7
    ||| code == 0xcf
    ||| code == 0xdf
    ||| code == 0xdb
    ||| code == 0xd3
    ||| code == 0xc3
    ||| code == 0xe7
    ||| code == 0xf7
    ||| code == 0xef
    ||| code == 0xff
    ||| code == 0xfb
    ||| code == 0xe3
    ||| code == 0xf3
    ||| code == 0x07
    ||| code == 0x17
    ||| code == 0x0f
    ||| code == 0x1f
    ||| code == 0x1b
    ||| code == 0x03
    ||| code == 0x13
    ||| code == 0x27
    ||| code == 0x37
    ||| code == 0x2f
    ||| code == 0x3f
    ||| code == 0x3b
    ||| code == 0x33
    ||| code == 0x23
    ||| code == 0x47
    ||| code == 0x57
    ||| code == 0x4f
    ||| code == 0x5f
    ||| code == 0x5b
    ||| code == 0x43
    ||| code == 0x53
    ||| code == 0x67
    ||| code == 0x77
    ||| code == 0x6f
    ||| code == 0x7f
    ||| code == 0x7b
    ||| code == 0x63
    ||| code == 0x73
    ||| code == 0x83
    ||| code == 0x87
    ||| code == 0x8f
    ||| code == 0x97
}

/// Whether the opcode belongs to an undocumented instruction.
pub fn is_unofficial(code: u8) -> (r: bool)
    ensures
        r == unofficial(code),
{
    match code {
        0x1a | 0x3a | 0x5a | 0x7a | 0xda | 0xfa | 0x04 | 0x44 | 0x64 | 0x14 | 0x34 | 0x54 | 0x74
        | 0xd4 | 0xf4 | 0x0c | 0x1c | 0x3c | 0x5c | 0x7c | 0xdc | 0xfc | 0x80 | 0xa3 | 0xab |
        0xa7 | 0xb7 | 0xb3 | 0xaf | 0xbf | 0xeb | 0xc7 | 0xd7 | 0xcf | 0xdf | 0xdb | 0xd3 | 0xc3
        | 0xe7 | 0xf7 | 0xef | 0xff | 0xfb | 0xe3 | 0xf3 | 0x07 | 0x17 | 0x0f | 0x1f | 0x1b |
        0x03 | 0x13 | 0x27 | 0x37 | 0x2f | 0x3f | 0x3b | 0x33 | 0x23 | 0x47 | 0x57 | 0x4f | 0x5f
        | 0x5b | 0x43 | 0x53 | 0x67 | 0x77 | 0x6f | 0x7f | 0x7b | 0x63 | 0x73 | 0x83 | 0x87 |
        0x8f | 0x97 => true,
        _ => false,
    }
}

/// Every row of the table makes an instruction and carries its own opcode.
pub proof fn lemma_table_rows(code: u8)
    ensures
        opcode_table(code) matches Some(entry) ==> entry.wf() && entry.code == code,
{
    reveal(opcode_table);
}

} // verus!

//! One line of text per instruction, in the layout of the logs that
//! processor tests are compared with:
//!
//! ```text
//! 0064  A2 01     LDX #$01                        A:01 X:02 Y:03 P:24 SP:FD PPU:  0, 21 CYC:7
//! ```

use crate::bits::{lemma_low_eleven_bits, lemma_word, signed, wrap16, wrap8};
use crate::bus::model::{
    JOYPAD, NOTHING_TO_SHOW, OAM_DMA, PPU_MIRRORS_END, PRG_RAM_START, PRG_ROM_START,
    WRAM_END,
};
use crate::bus::Bus;
use crate::cpu::addressing::AddressingMode;
use crate::cpu::model::CpuState;
use crate::cpu::opcodes::{is_unofficial, lookup, opcode_table, unofficial, OpCode};
use crate::cpu::operations::Operation;
use crate::cpu::{Mem, CPU};
use vstd::prelude::*;
use vstd::string::{StrSliceExecFns, StringExecFns};

verus! {

/// A number below 16 as a hexadecimal digit.
pub open spec fn hex_digit(n: int) -> Seq<char> {
    if n == 0 {
        "0"@
    } else if n == 1 {
        "1"@
    } else if n == 2 {
        "2"@
    } else if n == 3 {
        "3"@
    } else if n == 4 {
        "4"@
    } else if n == 5 {
        "5"@
    } else if n == 6 {
        "6"@
    } else if n == 7 {
        "7"@
    } else if n == 8 {
        "8"@
    } else if n == 9 {
        "9"@
    } else if n == 10 {
        "A"@
    } else if n == 11 {
        "B"@
    } else if n == 12 {
        "C"@
    } else if n == 13 {
        "D"@
    } else if n == 14 {
        "E"@
    } else {
        "F"@
    }
}

/// A number in hexadecimal digits, with zeros in front up to `width` digits.
pub open spec fn hex(n: nat, width: nat) -> Seq<char>
    decreases n, width,
{
    if n < 16 && width <= 1 {
        hex_digit(n as int)
    } else {
        hex(
            n / 16,
            if width > 0 {
                (width - 1) as nat
            } else {
                0
            },
        ) + hex_digit((n % 16) as int)
    }
}

/// A number in decimal digits.
pub open spec fn decimal(n: nat) -> Seq<char>
    decreases n,
{
    if n < 10 {
        hex_digit(n as int)
    } else {
        decimal(n / 10) + hex_digit((n % 10) as int)
    }
}

/// So many spaces.
pub open spec fn spaces(count: int) -> Seq<char> {
    Seq::new(
        if count > 0 {
            count as nat
        } else {
            0
        },
        |i: int| ' ',
    )
}

/// A text with spaces in front, up to `width` characters.
pub open spec fn pad_left(text: Seq<char>, width: int) -> Seq<char> {
    spaces(width - text.len()) + text
}

/// A text with spaces behind, up to `width` characters.
pub open spec fn pad_right(text: Seq<char>, width: int) -> Seq<char> {
    text + spaces(width - text.len())
}

/// The bytes of an instruction in hexadecimal, with spaces between them and
/// behind them up to eight characters.
pub open spec fn dump(bytes: Seq<u8>) -> Seq<char> {
    if bytes.len() == 1 {
        hex(bytes[0] as nat, 2) + "      "@
    } else if bytes.len() == 2 {
        hex(bytes[0] as nat, 2) + " "@ + hex(bytes[1] as nat, 2) + "   "@
    } else {
        hex(bytes[0] as nat, 2) + " "@ + hex(bytes[1] as nat, 2) + " "@ + hex(bytes[2] as nat, 2)
    }
}

/// The operand of an instruction of one byte: the accumulator for its
/// shifts and rotates, else nothing.
pub open spec fn operand_text_1(code: u8) -> Seq<char> {
    if code == 0x0a || code == 0x4a || code == 0x2a || code == 0x6a {
        " A"@
    } else {
        Seq::empty()
    }
}

/// The operand of an instruction of two bytes, as an assembler writes it,
/// with the address that it leads to and the value found there.
pub open spec fn operand_text_2(
    s: CpuState,
    mode: AddressingMode,
    begin: u16,
    address: u8,
    mem_addr: u16,
    stored: u16,
) -> Seq<char> {
    match mode {
        AddressingMode::Immediate => " #$"@ + hex(address as nat, 2),
        AddressingMode::ZeroPage => " $"@ + hex(mem_addr as nat, 2) + " = "@ + hex(
            stored as nat,
            2,
        ),
        AddressingMode::ZeroPage_X => " $"@ + hex(address as nat, 2) + ",X @ "@ + hex(
            mem_addr as nat,
            2,
        ) + " = "@ + hex(stored as nat, 2),
        AddressingMode::ZeroPage_Y => " $"@ + hex(address as nat, 2) + ",Y @ "@ + hex(
            mem_addr as nat,
            2,
        ) + " = "@ + hex(stored as nat, 2),
        AddressingMode::Indirect_X => " ($"@ + hex(address as nat, 2) + ",X) @ "@ + hex(
            wrap8(address + s.register_x) as nat,
            2,
        ) + " = "@ + hex(mem_addr as nat, 4) + " = "@ + hex(stored as nat, 2),
        AddressingMode::Indirect_Y => " ($"@ + hex(address as nat, 2) + "),Y = "@ + hex(
            wrap16(mem_addr - s.register_y) as nat,
            4,
        ) + " @ "@ + hex(mem_addr as nat, 4) + " = "@ + hex(stored as nat, 2),
        AddressingMode::NoneAddressing => " $"@ + hex(branch_target(begin, address), 4),
        _ => Seq::empty(),
    }
}

/// Where a branch at `begin` with the offset byte `offset` leads, as the
/// trace shows it: not folded into the sixteen bits of an address, and where
/// it would lie below zero, wrapped at the machine's word.
pub open spec fn branch_target(begin: u16, offset: u8) -> nat {
    let target = begin + 2 + signed(offset);
    if target < 0 {
        (target + usize::MAX + 1) as nat
    } else {
        target as nat
    }
}

/// The operand of an instruction of three bytes, as an assembler writes it,
/// with the address that it leads to and the value found there.
pub open spec fn operand_text_3(
    op: Operation,
    mode: AddressingMode,
    address: u16,
    mem_addr: u16,
    stored: u16,
    jmp_addr: u16,
) -> Seq<char> {
    match mode {
        AddressingMode::NoneAddressing => " $"@ + hex(address as nat, 4),
        AddressingMode::Absolute => if op == Operation::JMP {
            " $"@ + hex(mem_addr as nat, 4)
        } else {
            " $"@ + hex(mem_addr as nat, 4) + " = "@ + hex(stored as nat, 2)
        },
        AddressingMode::Absolute_X => " $"@ + hex(address as nat, 4) + ",X @ "@ + hex(
            mem_addr as nat,
            4,
        ) + " = "@ + hex(stored as nat, 2),
        AddressingMode::Absolute_Y => " $"@ + hex(address as nat, 4) + ",Y @ "@ + hex(
            mem_addr as nat,
            4,
        ) + " = "@ + hex(stored as nat, 2),
        AddressingMode::Indirect => " ($"@ + hex(address as nat, 4) + ") = "@ + hex(
            jmp_addr as nat,
            4,
        ),
        _ => Seq::empty(),
    }
}

/// The name of the operation in four characters: a star marks the
/// undocumented ones.
pub open spec fn operation_text(ops: OpCode) -> Seq<char> {
    if unofficial(ops.code) {
        "*"@ + ops.op.mnemonic()
    } else {
        " "@ + ops.op.mnemonic()
    }
}

/// The left part of a line: address, bytes, operation and operand.
pub open spec fn assembly_text(begin: u16, bytes: Seq<u8>, ops: OpCode, operand: Seq<char>) -> Seq<
    char,
> {
    hex(begin as nat, 4) + "  "@ + dump(bytes) + " "@ + operation_text(ops) + operand
}

/// The right part of a line: the registers, where the picture unit stands,
/// and the cycle counter.
pub open spec fn register_text(s: CpuState) -> Seq<char> {
    " A:"@ + hex(s.register_a as nat, 2) + " X:"@ + hex(s.register_x as nat, 2) + " Y:"@ + hex(
        s.register_y as nat,
        2,
    ) + " P:"@ + hex(s.status.bits as nat, 2) + " SP:"@ + hex(s.stack_pointer as nat, 2)
        + " PPU:"@ + pad_left(decimal(s.bus.ppu.scanline as nat), 3) + ","@ + pad_left(
        decimal(s.bus.ppu.cycles as nat),
        3,
    ) + " CYC:"@ + decimal(s.bus.cycles as nat)
}

/// What the reads behind the opcode of an instruction find.
pub struct Operand {
    /// The bytes of the instruction.
    pub bytes: Seq<u8>,
    /// The operand as text.
    pub text: Seq<char>,
    /// The processor after the reads.
    pub state: CpuState,
}

impl CpuState {
    /// The address that the operand of an instruction beginning at `begin`
    /// leads to, what a look at it shows, and the state after the reads
    /// that found it. Modes without an address in memory give zeros.
    pub open spec fn traced_address(self, mode: AddressingMode, begin: u16) -> (
        u16,
        u16,
        CpuState,
    ) {
        match mode {
            AddressingMode::Immediate
            | AddressingMode::NoneAddressing
            | AddressingMode::Indirect => (0, 0, self),
            _ => {
                let (addr, crossed, s) = self.absolute_address(mode, wrap16(begin + 1));
                (addr, s.bus.peek(addr), s)
            },
        }
    }

    /// The bytes and the operand of the instruction whose opcode `code` was
    /// read at `begin`.
    pub open spec fn traced_operand(self, ops: OpCode, begin: u16, code: u8) -> Operand {
        let (mem_addr, stored, s) = self.traced_address(ops.addressing_mode, begin);
        if ops.bytes == 1 {
            Operand { bytes: seq![code], text: operand_text_1(ops.code), state: s }
        } else if ops.bytes == 2 {
            let (address, s) = s.read(wrap16(begin + 1));
            Operand {
                bytes: seq![code, address],
                text: operand_text_2(s, ops.addressing_mode, begin, address, mem_addr, stored),
                state: s,
            }
        } else if ops.bytes == 3 {
            let (address_lo, s) = s.read(wrap16(begin + 1));
            let (address_hi, s) = s.read(wrap16(begin + 2));
            let (address, s) = s.read_u16(wrap16(begin + 1));
            let (jmp_addr, s) = if ops.addressing_mode == AddressingMode::Indirect {
                if address % 256 == 255 {
                    let (lo, s) = s.read(address);
                    let (hi, s) = s.read((address - 255) as u16);
                    (crate::bits::word(lo, hi), s)
                } else {
                    s.read_u16(address)
                }
            } else {
                (0u16, s)
            };
            Operand {
                bytes: seq![code, address_lo, address_hi],
                text: operand_text_3(
                    ops.op,
                    ops.addressing_mode,
                    address,
                    mem_addr,
                    stored,
                    jmp_addr,
                ),
                state: s,
            }
        } else {
            Operand { bytes: seq![code], text: Seq::empty(), state: s }
        }
    }

    /// The line that describes the instruction under the program counter,
    /// and the state after the reads that it took to write it; no line where
    /// the byte under the program counter is no instruction.
    ///
    /// The left part is filled with spaces to 47 characters. The registers
    /// are shown as they are before the instruction runs.
    pub open spec fn trace(self) -> (Option<Seq<char>>, CpuState) {
        let begin = self.program_counter;
        let (code, s) = self.read(begin);
        match opcode_table(code) {
            None => (None, s),
            Some(ops) => {
                let operand = s.traced_operand(ops, begin, code);
                (
                    Some(
                        pad_right(assembly_text(begin, operand.bytes, ops, operand.text), 47)
                            + register_text(operand.state),
                    ),
                    operand.state,
                )
            },
        }
    }
}

/// A number below 16 as a hexadecimal digit.
fn hex_digit_str(n: usize) -> (r: &'static str)
    requires
        n < 16,
    ensures
        r@ == hex_digit(n as int),
{
    if n == 0 {
        "0"
    } else if n == 1 {
        "1"
    } else if n == 2 {
        "2"
    } else if n == 3 {
        "3"
    } else if n == 4 {
        "4"
    } else if n == 5 {
        "5"
    } else if n == 6 {
        "6"
    } else if n == 7 {
        "7"
    } else if n == 8 {
        "8"
    } else if n == 9 {
        "9"
    } else if n == 10 {
        "A"
    } else if n == 11 {
        "B"
    } else if n == 12 {
        "C"
    } else if n == 13 {
        "D"
    } else if n == 14 {
        "E"
    } else {
        "F"
    }
}

/// A number in hexadecimal digits, with zeros in front up to `width` digits.
pub fn hex_string(n: usize, width: usize) -> (r: String)
    ensures
        r@ == hex(n as nat, width as nat),
    decreases n, width,
{
    if n < 16 && width <= 1 {
        String::from_str(hex_digit_str(n))
    } else {
        let rest = if width > 0 {
            width - 1
        } else {
            0
        };
        hex_string(n / 16, rest).concat(hex_digit_str(n % 16))
    }
}

/// A number in decimal digits.
pub fn decimal_string(n: usize) -> (r: String)
    ensures
        r@ == decimal(n as nat),
    decreases n,
{
    if n < 10 {
        String::from_str(hex_digit_str(n))
    } else {
        decimal_string(n / 10).concat(hex_digit_str(n % 10))
    }
}

/// So many spaces.
fn spaces_string(count: usize) -> (r: String)
    ensures
        r@ == spaces(count as int),
{
    let mut text = String::from_str("");
    proof {
        reveal_strlit("");
        reveal_strlit(" ");
        assert(text@ =~= spaces(0));
    }
    let mut i: usize = 0;
    while i < count
        invariant
            i <= count,
            text@ == spaces(i as int),
        decreases count - i,
    {
        text.append(" ");
        proof {
            reveal_strlit(" ");
            assert(text@ =~= spaces(i + 1));
        }
        i += 1;
    }
    text
}

/// A text with spaces in front, up to `width` characters.
fn pad_left_string(text: String, width: usize) -> (r: String)
    ensures
        r@ == pad_left(text@, width as int),
{
    let len = text.as_str().unicode_len();
    let fill = if len < width {
        width - len
    } else {
        0
    };
    proof {
        assert(spaces(fill as int) =~= spaces(width - text@.len()));
    }
    spaces_string(fill).concat(text.as_str())
}

/// A text with spaces behind, up to `width` characters.
fn pad_right_string(text: String, width: usize) -> (r: String)
    ensures
        r@ == pad_right(text@, width as int),
{
    let len = text.as_str().unicode_len();
    let fill = if len < width {
        width - len
    } else {
        0
    };
    proof {
        assert(spaces(fill as int) =~= spaces(width - text@.len()));
    }
    let tail = spaces_string(fill);
    text.concat(tail.as_str())
}

impl Bus {
    /// Looks at an address without changing anything.
    pub fn mem_read_debug(&self, addr: u16) -> (shown: u16)
        requires
            self.wf(),
        ensures
            shown == self@.peek(addr),
    {
        reveal(Bus::state);
        if addr <= WRAM_END {
            proof {
                lemma_low_eleven_bits(addr);
            }
            let mirror_down_addr = addr & 0b111_1111_1111;
            self.cpu_wram[mirror_down_addr as usize] as u16
        } else if addr == 0x2000 {
            self.ppu.controller.bits() as u16
        } else if addr == 0x2001 {
            self.ppu.ppu_mask.bits() as u16
        } else if addr == 0x2002 {
            self.ppu.status.bits() as u16
        } else if addr == 0x2003 {
            self.ppu.oam_addr as u16
        } else if addr == 0x2004 {
            self.ppu.oam_data[self.ppu.oam_addr as usize] as u16
        } else if addr == 0x2006 {
            self.ppu.ppu_addr.get()
        } else if addr <= PPU_MIRRORS_END || addr == OAM_DMA {
            NOTHING_TO_SHOW
        } else if addr == JOYPAD {
            self.joypad.button_status.bits() as u16
        } else if addr < PRG_RAM_START {
            0
        } else if addr < PRG_ROM_START {
            self.read_prg_ram(addr) as u16
        } else {
            self.read_prg_rom(addr) as u16
        }
    }
}

/// The bytes of an instruction in hexadecimal.
fn dump_string(code: u8, first: u8, second: u8, count: u8) -> (r: String)
    requires
        1 <= count <= 3,
    ensures
        count == 1 ==> r@ == dump(seq![code]),
        count == 2 ==> r@ == dump(seq![code, first]),
        count == 3 ==> r@ == dump(seq![code, first, second]),
{
    let text = hex_string(code as usize, 2);
    if count == 1 {
        text.concat("      ")
    } else if count == 2 {
        text.concat(" ").concat(hex_string(first as usize, 2).as_str()).concat("   ")
    } else {
        text.concat(" ").concat(hex_string(first as usize, 2).as_str()).concat(" ").concat(
            hex_string(second as usize, 2).as_str(),
        )
    }
}

/// The operand of an instruction of two bytes.
fn operand_string_2(
    cpu: &CPU,
    mode: &AddressingMode,
    begin: u16,
    address: u8,
    mem_addr: u16,
    stored: u16,
) -> (r: String)
    ensures
        r@ == operand_text_2(cpu@, *mode, begin, address, mem_addr, stored),
{
    match mode {
        AddressingMode::Immediate => String::from_str(" #$").concat(
            hex_string(address as usize, 2).as_str(),
        ),
        AddressingMode::ZeroPage => String::from_str(" $").concat(
            hex_string(mem_addr as usize, 2).as_str(),
        ).concat(" = ").concat(hex_string(stored as usize, 2).as_str()),
        AddressingMode::ZeroPage_X => String::from_str(" $").concat(
            hex_string(address as usize, 2).as_str(),
        ).concat(",X @ ").concat(hex_string(mem_addr as usize, 2).as_str()).concat(" = ").concat(
            hex_string(stored as usize, 2).as_str(),
        ),
        AddressingMode::ZeroPage_Y => String::from_str(" $").concat(
            hex_string(address as usize, 2).as_str(),
        ).concat(",Y @ ").concat(hex_string(mem_addr as usize, 2).as_str()).concat(" = ").concat(
            hex_string(stored as usize, 2).as_str(),
        ),
        AddressingMode::Indirect_X => String::from_str(" ($").concat(
            hex_string(address as usize, 2).as_str(),
        ).concat(",X) @ ").concat(
            hex_string(address.wrapping_add(cpu.register_x) as usize, 2).as_str(),
        ).concat(" = ").concat(hex_string(mem_addr as usize, 4).as_str()).concat(" = ").concat(
            hex_string(stored as usize, 2).as_str(),
        ),
        AddressingMode::Indirect_Y => String::from_str(" ($").concat(
            hex_string(address as usize, 2).as_str(),
        ).concat("),Y = ").concat(
            hex_string(mem_addr.wrapping_sub(cpu.register_y as u16) as usize, 4).as_str(),
        ).concat(" @ ").concat(hex_string(mem_addr as usize, 4).as_str()).concat(" = ").concat(
            hex_string(stored as usize, 2).as_str(),
        ),
        AddressingMode::NoneAddressing => {
            let target: usize = if address < 128 {
                begin as usize + 2 + address as usize
            } else {
                (begin as usize + 2).wrapping_sub(256 - address as usize)
            };
            String::from_str(" $").concat(hex_string(target, 4).as_str())
        },
        _ => {
            proof {
                reveal_strlit("");
            }
            let text = String::from_str("");
            assert(text@ =~= Seq::<char>::empty());
            text
        },
    }
}

/// The operand of an instruction of three bytes.
fn operand_string_3(
    op: Operation,
    mode: &AddressingMode,
    address: u16,
    mem_addr: u16,
    stored: u16,
    jmp_addr: u16,
) -> (r: String)
    ensures
        r@ == operand_text_3(op, *mode, address, mem_addr, stored, jmp_addr),
{
    match mode {
        AddressingMode::NoneAddressing => String::from_str(" $").concat(
            hex_string(address as usize, 4).as_str(),
        ),
        AddressingMode::Absolute => {
            let text = String::from_str(" $").concat(hex_string(mem_addr as usize, 4).as_str());
            match op {
                Operation::JMP => text,
                _ => text.concat(" = ").concat(hex_string(stored as usize, 2).as_str()),
            }
        },
        AddressingMode::Absolute_X => String::from_str(" $").concat(
            hex_string(address as usize, 4).as_str(),
        ).concat(",X @ ").concat(hex_string(mem_addr as usize, 4).as_str()).concat(" = ").concat(
            hex_string(stored as usize, 2).as_str(),
        ),
        AddressingMode::Absolute_Y => String::from_str(" $").concat(
            hex_string(address as usize, 4).as_str(),
        ).concat(",Y @ ").concat(hex_string(mem_addr as usize, 4).as_str()).concat(" = ").concat(
            hex_string(stored as usize, 2).as_str(),
        ),
        AddressingMode::Indirect => String::from_str(" ($").concat(
            hex_string(address as usize, 4).as_str(),
        ).concat(") = ").concat(hex_string(jmp_addr as usize, 4).as_str()),
        _ => {
            proof {
                reveal_strlit("");
            }
            let text = String::from_str("");
            assert(text@ =~= Seq::<char>::empty());
            text
        },
    }
}

/// The right part of a line.
fn register_string(cpu: &CPU) -> (r: String)
    ensures
        r@ == register_text(cpu@),
{
    reveal(Bus::state);
    String::from_str(" A:").concat(hex_string(cpu.register_a as usize, 2).as_str()).concat(
        " X:",
    ).concat(hex_string(cpu.register_x as usize, 2).as_str()).concat(" Y:").concat(
        hex_string(cpu.register_y as usize, 2).as_str(),
    ).concat(" P:").concat(hex_string(cpu.status.bits() as usize, 2).as_str()).concat(
        " SP:",
    ).concat(hex_string(cpu.stack_pointer as usize, 2).as_str()).concat(" PPU:").concat(
        pad_left_string(decimal_string(cpu.bus.ppu.scanline as usize), 3).as_str(),
    ).concat(",").concat(pad_left_string(decimal_string(cpu.bus.ppu.cycles), 3).as_str()).concat(
        " CYC:",
    ).concat(decimal_string(cpu.bus.cycles).as_str())
}

/// The operand of an instruction as text, and the bytes that follow its
/// opcode.
struct Traced {
    text: String,
    first: u8,
    second: u8,
}

/// Reads what stands behind the opcode of an instruction and writes its
/// operand.
fn trace_operand(cpu: &mut CPU, ops: &OpCode, begin: u16, code: u8) -> (r: Traced)
    requires
        old(cpu).wf(),
        1 <= ops.bytes <= 3,
    ensures
        final(cpu).wf(),
        final(cpu)@ == old(cpu)@.traced_operand(*ops, begin, code).state,
        r.text@ == old(cpu)@.traced_operand(*ops, begin, code).text,
        ops.bytes == 1 ==> old(cpu)@.traced_operand(*ops, begin, code).bytes == seq![code],
        ops.bytes == 2 ==> old(cpu)@.traced_operand(*ops, begin, code).bytes == seq![
            code,
            r.first,
        ],
        ops.bytes == 3 ==> old(cpu)@.traced_operand(*ops, begin, code).bytes == seq![
            code,
            r.first,
            r.second,
        ],
{
    let (mem_addr, stored_value) = match ops.addressing_mode {
        AddressingMode::Immediate
        | AddressingMode::NoneAddressing
        | AddressingMode::Indirect => (0, 0),
        _ => {
            let (addr, _) = cpu.get_absolute_address(&ops.addressing_mode, begin.wrapping_add(1));
            (addr, cpu.bus.mem_read_debug(addr))
        },
    };
    if ops.bytes == 1 {
        let text = if ops.code == 0x0a || ops.code == 0x4a || ops.code == 0x2a || ops.code
            == 0x6a {
            String::from_str(" A")
        } else {
            proof {
                reveal_strlit("");
            }
            let text = String::from_str("");
            assert(text@ =~= Seq::<char>::empty());
            text
        };
        Traced { text, first: 0, second: 0 }
    } else if ops.bytes == 2 {
        let address = cpu.mem_read(begin.wrapping_add(1));
        let text = operand_string_2(
            cpu,
            &ops.addressing_mode,
            begin,
            address,
            mem_addr,
            stored_value,
        );
        Traced { text, first: address, second: 0 }
    } else {
        let address_lo = cpu.mem_read(begin.wrapping_add(1));
        let address_hi = cpu.mem_read(begin.wrapping_add(2));
        let address = cpu.mem_read_u16(begin.wrapping_add(1));
        let jmp_addr = match ops.addressing_mode {
            AddressingMode::Indirect => {
                proof {
                    lemma_word(0, 0, address);
                }
                if address & 0x00FF == 0x00FF {
                    let lo = cpu.mem_read(address);
                    let hi = cpu.mem_read(address & 0xFF00);
                    proof {
                        lemma_word(lo, hi, 0);
                    }
                    (hi as u16) << 8 | (lo as u16)
                } else {
                    cpu.mem_read_u16(address)
                }
            },
            _ => 0,
        };
        let text = operand_string_3(
            ops.op,
            &ops.addressing_mode,
            address,
            mem_addr,
            stored_value,
            jmp_addr,
        );
        Traced { text, first: address_lo, second: address_hi }
    }
}

/// Describes the instruction under the program counter in one line. The
/// reads that this takes are real reads: where the instruction or its
/// pointers lie in registers, they change them.
pub fn trace(cpu: &mut CPU) -> (line: Option<String>)
    requires
        old(cpu).wf(),
    ensures
        final(cpu).wf(),
        final(cpu)@ == old(cpu)@.trace().1,
        match line {
            Some(text) => old(cpu)@.trace().0 == Some(text@),
            None => old(cpu)@.trace().0 is None,
        },
{
    let begin = cpu.program_counter;
    let code = cpu.mem_read(begin);
    match lookup(code) {
        None => None,
        Some(ops) => {
            let traced = trace_operand(cpu, &ops, begin, code);
            let operation = if is_unofficial(ops.code) {
                String::from_str("*").concat(ops.op.name())
            } else {
                String::from_str(" ").concat(ops.op.name())
            };
            let assembly = hex_string(begin as usize, 4).concat("  ").concat(
                dump_string(code, traced.first, traced.second, ops.bytes).as_str(),
            ).concat(" ").concat(operation.as_str()).concat(traced.text.as_str());
            let registers = register_string(cpu);
            Some(pad_right_string(assembly, 47).concat(registers.as_str()))
        },
    }
}

} // verus!

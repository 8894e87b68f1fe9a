//! The write sequence that the address and the scroll register share.

use crate::bits::word;
use crate::ppu::model::PpuState;
use crate::ppu::registers::addr::ADDRESS_SPACE;
use vstd::arithmetic::div_mod::lemma_fundamental_div_mod_converse;
use vstd::prelude::*;

verus! {

/// Folding a word into 14 bits keeps its low byte and the six low bits of
/// its high byte.
proof fn lemma_fold(low: u8, high: u8)
    ensures
        word(low, high) % ADDRESS_SPACE == (high % 64) * 256 + low,
        (word(low, high) % ADDRESS_SPACE) / 256 == high % 64,
        (word(low, high) % ADDRESS_SPACE) % 256 == low,
{
    let rest = (high % 64) * 256 + low;
    lemma_fundamental_div_mod_converse(high * 256 + low, 16384, high as int / 64, rest);
    lemma_fundamental_div_mod_converse(rest, 256, high as int % 64, low as int);
}

/// After a read of the status register, two writes compose an address from
/// scratch.
///
/// Whatever was written before, a read of the status register makes the
/// next write of the address register the high byte and the one after it the
/// low byte: the address is then the two bytes folded into 14 bits, and the
/// sequence starts over. Without the read, and with the sequence at its
/// start, the two writes do the same.
pub proof fn law_status_read_restarts_address(s: PpuState, high: u8, low: u8)
    ensures
        s.read_status().1.write_addr(high).write_addr(low).ppu_addr.address() == word(low, high)
            % ADDRESS_SPACE,
        s.read_status().1.write_addr(high).write_addr(low).ppu_addr.write_latch,
        s.ppu_addr.write_latch ==> s.write_addr(high).write_addr(low).ppu_addr.address() == word(
            low,
            high,
        ) % ADDRESS_SPACE,
{
    lemma_fold(s.ppu_addr.value.1, high);
    lemma_fold(low, (high % 64) as u8);
    lemma_fold(low, high);
}

/// After a read of the status register, two writes of the scroll register
/// give the horizontal and then the vertical offset.
pub proof fn law_status_read_restarts_scroll(s: PpuState, x: u8, y: u8)
    ensures
        s.read_status().1.write_scroll(x).write_scroll(y).ppu_scroll.scroll_x == x,
        s.read_status().1.write_scroll(x).write_scroll(y).ppu_scroll.scroll_y == y,
        !s.read_status().1.write_scroll(x).write_scroll(y).ppu_scroll.latch,
{
}

} // verus!

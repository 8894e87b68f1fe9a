//! The working memory shows four times in the memory map.

use crate::bus::model::{BusState, WRAM_END, WRAM_SIZE};
use vstd::prelude::*;

verus! {

/// Each cell of the working memory is read at four addresses.
///
/// Take an address up to 0x1fff and write a byte there. The cell that took
/// it shows at its place in the first 0x0800 bytes and 0x0800, 0x1000 and
/// 0x1800 bytes further up: a read at any of the four returns the byte, and
/// changes nothing. The write itself changes nothing but that cell.
pub proof fn law_work_ram_mirrors(s: BusState, addr: u16, value: u8, copy: int)
    requires
        s.wf(),
        addr <= WRAM_END,
        0 <= copy < 4,
    ensures
        s.write(addr, value) == (BusState {
            cpu_wram: s.cpu_wram.update(addr as int % WRAM_SIZE as int, value),
            ..s
        }),
        s.write(addr, value).read((addr % 0x0800 + copy * 0x0800) as u16) == (
            value,
            s.write(addr, value),
        ),
{
    reveal(BusState::read);
    reveal(BusState::write);
}

} // verus!

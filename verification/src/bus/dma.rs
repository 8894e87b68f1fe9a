//! The state of a transfer into the sprite memory, started by a write of
//! 0x4014.

use vstd::prelude::*;

verus! {

/// A transfer of a page into the sprite memory, cycle by cycle.
pub struct DMA {
    /// The page that is copied.
    pub page: u8,
    /// Offset of the next byte in the page.
    pub addr: u8,
    /// The byte on its way from the processor's memory to the sprite memory.
    pub data: u8,
    /// A transfer is under way.
    pub dma_transfer: bool,
    /// The transfer waits for the processor's read cycle.
    pub dma_is_not_sync: bool,
}

impl DMA {
    /// No transfer under way.
    pub fn new() -> (r: Self)
        ensures
            r == (DMA { page: 0, addr: 0, data: 0, dma_transfer: false, dma_is_not_sync: false }),
    {
        DMA { page: 0, addr: 0, data: 0, dma_transfer: false, dma_is_not_sync: false }
    }

    /// Starts the transfer of page `data` at its first byte.
    pub fn write(&mut self, data: u8)
        ensures
            *final(self) == (DMA { page: data, addr: 0, dma_transfer: true, ..*old(self) }),
    {
        self.dma_transfer = true;
        self.page = data;
        self.addr = 0x00;
    }
}

} // verus!

//! The scroll register of the picture unit, behind 0x2005: two byte writes,
//! horizontal offset first.

use vstd::prelude::*;

verus! {

/// The offsets of the picture, and which of them the next write replaces.
pub struct PPUSCROLL {
    pub scroll_x: u8,
    pub scroll_y: u8,
    /// The next write goes to the vertical offset.
    pub latch: bool,
}

impl PPUSCROLL {
    /// The register after a byte write: the byte goes where the latch points
    /// and the latch flips.
    pub open spec fn written(&self, data: u8) -> PPUSCROLL {
        if self.latch {
            PPUSCROLL { scroll_x: self.scroll_x, scroll_y: data, latch: false }
        } else {
            PPUSCROLL { scroll_x: data, scroll_y: self.scroll_y, latch: true }
        }
    }

    /// No scrolling, expecting the horizontal offset.
    pub fn new() -> (r: Self)
        ensures
            r == (PPUSCROLL { scroll_x: 0, scroll_y: 0, latch: false }),
    {
        PPUSCROLL { scroll_x: 0, scroll_y: 0, latch: false }
    }

    /// Writes one byte: the horizontal offset on the first write, the
    /// vertical offset on the second.
    pub fn write(&mut self, data: u8)
        ensures
            *final(self) == old(self).written(data),
    {
        if self.latch {
            self.scroll_y = data;
        } else {
            self.scroll_x = data;
        }
        self.latch = !self.latch;
    }

    /// The next write goes to the horizontal offset again.
    pub fn reset_latch(&mut self)
        ensures
            *final(self) == (PPUSCROLL { latch: false, ..*old(self) }),
    {
        self.latch = false;
    }
}

} // verus!

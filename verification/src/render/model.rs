//! What the picture of a frame is: for every pixel, the colour that the
//! background or the topmost sprite gives it.

use crate::ppu::model::PpuState;
use crate::render::constants::{NES_PIXELS, NES_PIXEL_WIDTH, TILES_PER_LINE, TILE_SIZE};
use crate::render::palette::system_colour;
use vstd::prelude::*;

verus! {

/// The colour of a pixel: red, green, blue.
pub type Rgb = (u8, u8, u8);

/// The colour number, 0 to 3, of the pixel in column `x` and row `y` of the
/// tile that starts at `start` in the pattern memory. The row's byte in the
/// first plane gives the low bit, the one in the second plane, eight bytes
/// on, the high bit; column 0 is bit 7.
pub open spec fn pattern_value(chr: Seq<u8>, start: int, x: int, y: int) -> u8 {
    plane_bits(chr[start + y], chr[start + y + 8], (7 - x) as u8)
}

/// Bit `shift` of the byte `upper`, then bit `shift` of the byte `lower`,
/// as a number of two bits.
pub open spec fn plane_bits(lower: u8, upper: u8, shift: u8) -> u8 {
    (((upper >> shift) & 1) << 1) | ((lower >> shift) & 1)
}

proof fn lemma_plane_bits(lower: u8, upper: u8, shift: u8)
    by (bit_vector)
    requires
        shift < 8,
    ensures
        (((upper >> shift) & 1) << 1) | ((lower >> shift) & 1) <= 3,
{
}

/// The colour number of the pixel in column `x` of a row of a tile, from the
/// row's bytes in the two planes.
pub fn plane_value(lower: u8, upper: u8, x: usize) -> (value: u8)
    requires
        x < 8,
    ensures
        value == plane_bits(lower, upper, (7 - x) as u8),
        value <= 3,
{
    let shift = (7 - x) as u8;
    proof {
        lemma_plane_bits(lower, upper, shift);
    }
    (((upper >> shift) & 1) << 1) | ((lower >> shift) & 1)
}

impl PpuState {
    /// The colour that the background gives the pixel in column `px` and
    /// line `py`: the tile comes from the first nametable, its pattern from
    /// the pattern table that the control register names, its four colours
    /// from the attribute table.
    pub open spec fn background_colour(self, px: int, py: int) -> Rgb {
        let tile_x = px / 8;
        let tile_y = py / 8;
        let tile_index = self.vram[tile_y * TILES_PER_LINE as int + tile_x];
        let start = self.controller.background_bank() + tile_index as int * TILE_SIZE as int;
        let value = pattern_value(self.chr(), start, px % 8, py % 8);
        system_colour(self.bg_palette(tile_x, tile_y)[value as int])
    }

    /// The pixel of the picture where sprite `n` starts, counted line by
    /// line from the top left.
    pub open spec fn sprite_origin(self, n: int) -> int {
        self.oam_data[4 * n] as int * NES_PIXEL_WIDTH as int + self.oam_data[4 * n + 3] as int
    }

    /// The colour that sprite `n` gives pixel `p` of the picture, counted
    /// line by line from the top left; nothing where the sprite does not
    /// reach or is transparent.
    ///
    /// The sprite covers eight pixels in each of eight lines. Bits 6 and 7 of
    /// its attribute byte flip it from side to side and upside down, bits 0
    /// and 1 pick its palette. What reaches past the right edge goes on at
    /// the start of the next line.
    pub open spec fn sprite_colour(self, n: int, p: int) -> Option<Rgb> {
        let d = p - self.sprite_origin(n);
        let tile_index = self.oam_data[4 * n + 1];
        let attr = self.oam_data[4 * n + 2];
        if 0 <= d && d % 256 < 8 && d / 256 < 8 {
            let x = if attr & 0x40 != 0 {
                7 - d % 256
            } else {
                d % 256
            };
            let y = if attr & 0x80 != 0 {
                7 - d / 256
            } else {
                d / 256
            };
            let start = self.controller.sprite_bank() + tile_index as int * TILE_SIZE as int;
            let value = pattern_value(self.chr(), start, x, y);
            if value == 0 {
                None
            } else {
                Some(system_colour(self.sprite_palette(attr & 0b11)[value as int]))
            }
        } else {
            None
        }
    }

    /// The colour that the last of the first `count` sprites which colours
    /// pixel `p` gives it; nothing where none of them does.
    pub open spec fn top_sprite(self, count: int, p: int) -> Option<Rgb>
        decreases count,
    {
        if count <= 0 {
            None
        } else {
            match self.sprite_colour(count - 1, p) {
                Some(rgb) => Some(rgb),
                None => self.top_sprite(count - 1, p),
            }
        }
    }

    /// The colour of pixel `p` with the background and the first `count`
    /// sprites drawn.
    pub open spec fn layered_pixel(self, count: int, p: int) -> Rgb {
        match self.top_sprite(count, p) {
            Some(rgb) => rgb,
            None => self.background_colour(p % 256, p / 256),
        }
    }

    /// The picture: for each pixel the colour of the last of the 64 sprites
    /// that colours it, and where there is none, that of the background.
    pub open spec fn rendered(self) -> Seq<Rgb> {
        Seq::new(NES_PIXELS as nat, |p: int| self.layered_pixel(64, p))
    }
}

} // verus!

//! The picture of a frame: 256 by 240 pixels, line by line.

use crate::render::constants::{NES_PIXELS, NES_PIXEL_WIDTH, PATTERN_TABLE_SIZE, TILE_SIZE};
use crate::render::model::{plane_bits, plane_value, Rgb};
use crate::render::palette::{system_colour, system_palette};
use vstd::arithmetic::div_mod::lemma_fundamental_div_mod_converse;
use vstd::slice::slice_subrange;
use vstd::prelude::*;

verus! {

/// The colour of a picture that nothing was drawn into.
pub const PINK: (u8, u8, u8) = (255, 109, 193);

/// A picture: the colours of its pixels, line by line from the top left.
pub struct Frame {
    pub data: Vec<Rgb>,
}

impl View for Frame {
    type V = Seq<Rgb>;

    open spec fn view(&self) -> Seq<Rgb> {
        self.data@
    }
}

/// The pixel of a picture of tiles that column `x` and line `y` name,
/// counted line by line.
pub open spec fn pixel_index(x: int, y: int) -> int {
    y * NES_PIXEL_WIDTH as int + x
}

/// The picture of the first 255 tiles of a pattern table, twenty to a row,
/// each in its own cell of ten by ten pixels: the colour of pixel `p`.
///
/// A pixel of a tile has the colour whose number its two bits make, with the
/// bit of the first plane as the high one. Between the tiles and behind the
/// last one, the picture keeps the colour it starts with.
pub open spec fn tile_bank_pixel(chr_rom: Seq<u8>, bank: int, p: int) -> Rgb {
    let x = p % 256;
    let y = p / 256;
    let tile_n = (y / 10) * 20 + x / 10;
    if x < 200 && x % 10 < 8 && y % 10 < 8 && tile_n < 255 {
        let start = bank * PATTERN_TABLE_SIZE as int + tile_n * TILE_SIZE as int;
        system_colour(
            plane_bits(chr_rom[start + y % 10 + 8], chr_rom[start + y % 10], (7 - x % 10) as u8),
        )
    } else {
        PINK
    }
}

/// The picture of one tile of a pattern table in the top left corner: the
/// colour of pixel `p`.
pub open spec fn tile_pixel(chr_rom: Seq<u8>, bank: int, tile_n: int, p: int) -> Rgb {
    let x = p % 256;
    let y = p / 256;
    if x < 8 && y < 8 {
        let start = bank * PATTERN_TABLE_SIZE as int + tile_n * TILE_SIZE as int;
        system_colour(plane_bits(chr_rom[start + y + 8], chr_rom[start + y], (7 - x) as u8))
    } else {
        PINK
    }
}

/// The place of pixel `p` in the order in which the tiles of a pattern
/// table are drawn, for the pixels that lie in the cell of a tile.
pub open spec fn tile_bank_order(p: int) -> int {
    let x = p % 256;
    let y = p / 256;
    ((y / 10) * 20 + x / 10) * 64 + (y % 10) * 8 + x % 10
}

/// Pixel `p` lies in one of the 255 tiles of the picture of a pattern table.
pub open spec fn in_tile_bank(p: int) -> bool {
    let x = p % 256;
    let y = p / 256;
    x < 200 && x % 10 < 8 && y % 10 < 8 && (y / 10) * 20 + x / 10 < 255
}

/// Where the pixel in column `x` and row `y` of tile `tile_n` lies in the
/// picture of a pattern table, and that no other pixel of a tile shares its
/// place in the order of drawing.
proof fn lemma_tile_bank_pixel(tile_n: int, x: int, y: int, p: int)
    requires
        0 <= tile_n < 255,
        0 <= x < 8,
        0 <= y < 8,
        0 <= p < NES_PIXELS,
    ensures
        ({
            let px = (tile_n % 20) * 10 + x;
            let py = (tile_n / 20) * 10 + y;
            let q = pixel_index(px, py);
            &&& 0 <= q < NES_PIXELS
            &&& q % 256 == px
            &&& q / 256 == py
            &&& px % 10 == x
            &&& py % 10 == y
            &&& (py / 10) * 20 + px / 10 == tile_n
            &&& in_tile_bank(q)
            &&& tile_bank_order(q) == tile_n * 64 + y * 8 + x
            &&& in_tile_bank(p) && tile_bank_order(p) == tile_n * 64 + y * 8 + x ==> p == q
            &&& in_tile_bank(p) ==> 0 <= tile_bank_order(p) < 255 * 64
        }),
{
    let px = (tile_n % 20) * 10 + x;
    let py = (tile_n / 20) * 10 + y;
    lemma_fundamental_div_mod_converse(px, 10, tile_n % 20, x);
    lemma_fundamental_div_mod_converse(py, 10, tile_n / 20, y);
    lemma_fundamental_div_mod_converse(py * 256 + px, 256, py, px);
    if in_tile_bank(p) {
        let ax = p % 256;
        let ay = p / 256;
        let t = (ay / 10) * 20 + ax / 10;
        let r = (ay % 10) * 8 + ax % 10;
        lemma_fundamental_div_mod_converse(t * 64 + r, 64, t, r);
        lemma_fundamental_div_mod_converse(tile_n * 64 + y * 8 + x, 64, tile_n, y * 8 + x);
        lemma_fundamental_div_mod_converse(r, 8, ay % 10, ax % 10);
        lemma_fundamental_div_mod_converse(y * 8 + x, 8, y, x);
        lemma_fundamental_div_mod_converse(t, 20, ay / 10, ax / 10);
        if tile_bank_order(p) == tile_n * 64 + y * 8 + x {
            assert(t == tile_n && r == y * 8 + x);
            assert(ax == (ax / 10) * 10 + ax % 10);
            assert(ay == (ay / 10) * 10 + ay % 10);
            assert(p == ay * 256 + ax);
        }
    }
}

impl Frame {
    /// The picture has its 256 by 240 pixels.
    pub open spec fn wf(&self) -> bool {
        self@.len() == NES_PIXELS
    }

    /// A picture of one colour.
    pub fn new() -> (frame: Self)
        ensures
            frame.wf(),
            forall|p: int| 0 <= p < NES_PIXELS ==> frame@[p] == PINK,
    {
        let mut data: Vec<Rgb> = Vec::new();
        let mut i: usize = 0;
        while i < NES_PIXELS
            invariant
                i <= NES_PIXELS,
                data@.len() == i,
                forall|p: int| 0 <= p < i ==> data@[p] == PINK,
            decreases NES_PIXELS - i,
        {
            data.push(PINK);
            i += 1;
        }
        Frame { data }
    }

    /// Gives the pixel in column `x` and line `y` a colour.
    pub fn set_pixel(&mut self, x: usize, y: usize, color: Rgb)
        requires
            pixel_index(x as int, y as int) < old(self)@.len(),
        ensures
            final(self)@ == old(self)@.update(pixel_index(x as int, y as int), color),
    {
        let len = self.data.len();
        let base = y * NES_PIXEL_WIDTH + x;
        self.data[base] = color;
    }

    /// The picture of one tile of a pattern table, in the top left corner.
    pub fn show_tile(chr_rom: &Vec<u8>, bank: usize, tile_n: usize) -> (frame: Frame)
        requires
            bank <= 1,
            bank * PATTERN_TABLE_SIZE + tile_n * TILE_SIZE + TILE_SIZE <= chr_rom@.len(),
        ensures
            frame.wf(),
            forall|p: int|
                0 <= p < NES_PIXELS ==> #[trigger] frame@[p] == tile_pixel(
                    chr_rom@,
                    bank as int,
                    tile_n as int,
                    p,
                ),
    {
        let mut frame = Frame::new();
        let len = chr_rom.len();
        let start = bank * PATTERN_TABLE_SIZE + tile_n * TILE_SIZE;
        let tile = slice_subrange(chr_rom.as_slice(), start, start + TILE_SIZE);
        let mut y: usize = 0;
        while y < 8
            invariant
                y <= 8,
                frame.wf(),
                start == bank * PATTERN_TABLE_SIZE + tile_n * TILE_SIZE,
                start + TILE_SIZE <= chr_rom@.len(),
                tile@ == chr_rom@.subrange(start as int, start + TILE_SIZE),
                forall|p: int|
                    0 <= p < NES_PIXELS ==> #[trigger] frame@[p] == if p / 256 < y {
                        tile_pixel(chr_rom@, bank as int, tile_n as int, p)
                    } else {
                        PINK
                    },
            decreases 8 - y,
        {
            let upper = tile[y];
            let lower = tile[y + 8];
            let mut x: usize = 0;
            while x < 8
                invariant
                    x <= 8,
                    y < 8,
                    frame.wf(),
                    start == bank * PATTERN_TABLE_SIZE + tile_n * TILE_SIZE,
                    start + TILE_SIZE <= chr_rom@.len(),
                    upper == chr_rom@[start + y],
                    lower == chr_rom@[start + y + 8],
                    forall|p: int|
                        0 <= p < NES_PIXELS ==> #[trigger] frame@[p] == if p / 256 < y || (p / 256
                            == y && p % 256 < x) {
                            tile_pixel(chr_rom@, bank as int, tile_n as int, p)
                        } else {
                            PINK
                        },
                decreases 8 - x,
            {
                let value = plane_value(lower, upper, x);
                frame.set_pixel(x, y, system_palette(value));
                x += 1;
            }
            y += 1;
        }
        frame
    }

    /// The picture of the first 255 tiles of a pattern table, twenty to a
    /// row.
    pub fn show_tile_bank(chr_rom: &Vec<u8>, bank: usize) -> (frame: Frame)
        requires
            bank <= 1,
            bank * PATTERN_TABLE_SIZE + 255 * TILE_SIZE <= chr_rom@.len(),
        ensures
            frame.wf(),
            forall|p: int|
                0 <= p < NES_PIXELS ==> #[trigger] frame@[p] == tile_bank_pixel(
                    chr_rom@,
                    bank as int,
                    p,
                ),
    {
        let mut frame = Frame::new();
        let len = chr_rom.len();
        let mut tile_y: usize = 0;
        let mut tile_x: usize = 0;
        let base = bank * PATTERN_TABLE_SIZE;
        let mut tile_n: usize = 0;
        while tile_n < 255
            invariant
                tile_n <= 255,
                frame.wf(),
                base == bank * PATTERN_TABLE_SIZE,
                base + 255 * TILE_SIZE <= chr_rom@.len(),
                tile_n < 255 ==> tile_x == (tile_n % 20) * 10 && tile_y == (tile_n / 20) * 10,
                forall|p: int|
                    0 <= p < NES_PIXELS ==> #[trigger] frame@[p] == if in_tile_bank(p)
                        && tile_bank_order(p) < tile_n * 64 {
                        tile_bank_pixel(chr_rom@, bank as int, p)
                    } else {
                        PINK
                    },
            decreases 255 - tile_n,
        {
            let start = base + tile_n * TILE_SIZE;
            let tile = slice_subrange(chr_rom.as_slice(), start, start + TILE_SIZE);
            let mut y: usize = 0;
            while y < 8
                invariant
                    y <= 8,
                    tile_n < 255,
                    frame.wf(),
                    tile_x == (tile_n % 20) * 10,
                    tile_y == (tile_n / 20) * 10,
                    start == bank * PATTERN_TABLE_SIZE + tile_n * TILE_SIZE,
                    start + TILE_SIZE <= chr_rom@.len(),
                    tile@ == chr_rom@.subrange(start as int, start + TILE_SIZE),
                    forall|p: int|
                        0 <= p < NES_PIXELS ==> #[trigger] frame@[p] == if in_tile_bank(p)
                            && tile_bank_order(p) < tile_n * 64 + y * 8 {
                            tile_bank_pixel(chr_rom@, bank as int, p)
                        } else {
                            PINK
                        },
                decreases 8 - y,
            {
                let upper = tile[y];
                let lower = tile[y + 8];
                let mut x: usize = 0;
                while x < 8
                    invariant
                        x <= 8,
                        y < 8,
                        tile_n < 255,
                        frame.wf(),
                        tile_x == (tile_n % 20) * 10,
                        tile_y == (tile_n / 20) * 10,
                        start == bank * PATTERN_TABLE_SIZE + tile_n * TILE_SIZE,
                        start + TILE_SIZE <= chr_rom@.len(),
                        upper == chr_rom@[start + y],
                        lower == chr_rom@[start + y + 8],
                        forall|p: int|
                            0 <= p < NES_PIXELS ==> #[trigger] frame@[p] == if in_tile_bank(p)
                                && tile_bank_order(p) < tile_n * 64 + y * 8 + x {
                                tile_bank_pixel(chr_rom@, bank as int, p)
                            } else {
                                PINK
                            },
                    decreases 8 - x,
                {
                    let value = plane_value(lower, upper, x);
                    let ghost before = frame@;
                    proof {
                        lemma_tile_bank_pixel(tile_n as int, x as int, y as int, 0);
                    }
                    frame.set_pixel(tile_x + x, tile_y + y, system_palette(value));
                    proof {
                        assert forall|p: int| 0 <= p < NES_PIXELS implies #[trigger] frame@[p]
                            == if in_tile_bank(p) && tile_bank_order(p) < tile_n * 64 + y * 8 + x
                            + 1 {
                            tile_bank_pixel(chr_rom@, bank as int, p)
                        } else {
                            PINK
                        } by {
                            lemma_tile_bank_pixel(tile_n as int, x as int, y as int, p);
                        }
                    }
                    x += 1;
                }
                y += 1;
            }
            tile_n += 1;
            if tile_n % 20 == 0 {
                tile_y += 10;
                tile_x = 0;
            } else {
                tile_x += 10;
            }
        }
        proof {
            assert forall|p: int| 0 <= p < NES_PIXELS implies #[trigger] frame@[p]
                == tile_bank_pixel(chr_rom@, bank as int, p) by {
                lemma_tile_bank_pixel(0, 0, 0, p);
            }
        }
        frame
    }
}

} // verus!

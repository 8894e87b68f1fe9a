//! From the memory of the picture unit to the picture of a frame.

pub mod constants;
pub mod frame;
pub mod model;
pub mod palette;

use crate::ppu::model::{PpuState, CHR_SIZE};
use crate::ppu::registers::controller::PPUCTRL;
use crate::ppu::PPU;
use crate::render::constants::{
    BACKGROUND_TILES, NES_PIXELS, NES_PIXEL_WIDTH, PATTERN_TABLE_SIZE, SPRITES, TILES_PER_LINE,
    TILE_SIZE,
};
use crate::render::frame::{pixel_index, Frame};
use crate::render::model::{pattern_value, plane_value, Rgb};
use crate::render::palette::system_palette;
use vstd::arithmetic::div_mod::lemma_fundamental_div_mod_converse;
use vstd::prelude::*;
use vstd::slice::slice_subrange;

verus! {

/// The place of pixel `p` in the order in which the background is drawn:
/// tile after tile, in each tile line after line, in each line from the
/// left.
pub open spec fn background_order(p: int) -> int {
    let px = p % 256;
    let py = p / 256;
    ((py / 8) * 32 + px / 8) * 64 + (py % 8) * 8 + px % 8
}

/// The place of pixel `p` in the order in which sprite `n` is drawn: line
/// after line of its pattern, in each line from the left of the pattern.
/// Only pixels that the sprite reaches have a place.
pub open spec fn sprite_order(ppu: PpuState, n: int, p: int) -> int {
    let d = p - ppu.sprite_origin(n);
    let attr = ppu.oam_data[4 * n + 2];
    let x = if attr & 0x40 != 0 {
        7 - d % 256
    } else {
        d % 256
    };
    let y = if attr & 0x80 != 0 {
        7 - d / 256
    } else {
        d / 256
    };
    y * 8 + x
}

/// The colour of pixel `p` with the background, the first `n` sprites and
/// the first `k` pixels of the pattern of sprite `n` drawn.
pub open spec fn partial_pixel(ppu: PpuState, n: int, k: int, p: int) -> Rgb {
    match ppu.sprite_colour(n, p) {
        Some(rgb) => if sprite_order(ppu, n, p) < k {
            rgb
        } else {
            ppu.layered_pixel(n, p)
        },
        None => ppu.layered_pixel(n, p),
    }
}

/// Where the pixel in column `x` and row `y` of background tile `i` lies,
/// and when it is drawn.
proof fn lemma_tile_pixel(i: int, x: int, y: int)
    requires
        0 <= i < BACKGROUND_TILES,
        0 <= x < 8,
        0 <= y < 8,
    ensures
        ({
            let px = (i % 32) * 8 + x;
            let py = (i / 32) * 8 + y;
            let q = pixel_index(px, py);
            &&& 0 <= q < NES_PIXELS
            &&& q % 256 == px
            &&& q / 256 == py
            &&& px / 8 == i % 32
            &&& py / 8 == i / 32
            &&& px % 8 == x
            &&& py % 8 == y
            &&& (py / 8) * 32 + px / 8 == i
            &&& background_order(q) == i * 64 + y * 8 + x
        }),
{
    let px = (i % 32) * 8 + x;
    let py = (i / 32) * 8 + y;
    assert(0 <= px < 256);
    assert(0 <= py < 240);
    assert(px / 8 == i % 32 && px % 8 == x);
    assert(py / 8 == i / 32 && py % 8 == y);
}

/// The pixel that is drawn at place `order`.
pub open spec fn background_pixel_at(order: int) -> int {
    let tile = order / 64;
    let rest = order % 64;
    pixel_index((tile % 32) * 8 + rest % 8, (tile / 32) * 8 + rest / 8)
}

/// Each pixel has its own place in the order in which the background is
/// drawn, and all places lie before the end of the last tile.
proof fn lemma_background_order(p: int)
    requires
        0 <= p < NES_PIXELS,
    ensures
        0 <= background_order(p) < BACKGROUND_TILES * 64,
        background_pixel_at(background_order(p)) == p,
{
    let px = p % 256;
    let py = p / 256;
    let tx = px / 8;
    let ty = py / 8;
    let x = px % 8;
    let y = py % 8;
    let tile = ty * 32 + tx;
    let rest = y * 8 + x;
    assert(0 <= tx < 32 && 0 <= ty < 30);
    lemma_fundamental_div_mod_converse(tile * 64 + rest, 64, tile, rest);
    lemma_fundamental_div_mod_converse(tile, 32, ty, tx);
    lemma_fundamental_div_mod_converse(rest, 8, y, x);
}

/// Where the pixel in column `x` and row `y` of the pattern of sprite `n`
/// lands, and that no other pixel shares its place in the order in which
/// the sprite is drawn.
proof fn lemma_sprite_pixel(ppu: PpuState, n: int, x: int, y: int, p: int)
    requires
        0 <= x < 8,
        0 <= y < 8,
    ensures
        ({
            let attr = ppu.oam_data[4 * n + 2];
            let xx = if attr & 0x40 != 0 {
                7 - x
            } else {
                x
            };
            let yy = if attr & 0x80 != 0 {
                7 - y
            } else {
                y
            };
            let q = ppu.sprite_origin(n) + yy * 256 + xx;
            let d = p - ppu.sprite_origin(n);
            &&& (q - ppu.sprite_origin(n)) % 256 == xx
            &&& (q - ppu.sprite_origin(n)) / 256 == yy
            &&& sprite_order(ppu, n, q) == y * 8 + x
            &&& 0 <= d && d % 256 < 8 && d / 256 < 8 ==> 0 <= sprite_order(ppu, n, p) < 64
            &&& 0 <= d && d % 256 < 8 && d / 256 < 8 && sprite_order(ppu, n, p) == y * 8 + x
                ==> p == q
        }),
{
    let attr = ppu.oam_data[4 * n + 2];
    let xx = if attr & 0x40 != 0 {
        7 - x
    } else {
        x
    };
    let yy = if attr & 0x80 != 0 {
        7 - y
    } else {
        y
    };
    lemma_fundamental_div_mod_converse(yy * 256 + xx, 256, yy, xx);
    let d = p - ppu.sprite_origin(n);
    if 0 <= d && d % 256 < 8 && d / 256 < 8 {
        assert(d == (d / 256) * 256 + d % 256);
    }
}

/// With all of a sprite drawn, the picture shows one sprite more.
proof fn lemma_sprite_done(ppu: PpuState, n: int, p: int)
    requires
        0 <= n,
    ensures
        partial_pixel(ppu, n, 0, p) == ppu.layered_pixel(n, p),
        partial_pixel(ppu, n, 64, p) == ppu.layered_pixel(n + 1, p),
        ppu.layered_pixel(0, p) == ppu.background_colour(p % 256, p / 256),
{
    lemma_sprite_pixel(ppu, n, 0, 0, p);
}

proof fn lemma_sprite_bits(attr: u8)
    by (bit_vector)
    ensures
        attr & 0b11 <= 3,
{
}

impl Frame {
    /// The sixteen bytes of a tile: `bank` is where its pattern table
    /// starts, `tile_index` its number in the table.
    pub fn fetch_tile(ppu: &PPU, bank: usize, tile_index: usize) -> (tile: &[u8])
        requires
            bank + tile_index * TILE_SIZE + TILE_SIZE <= ppu@.chr().len(),
        ensures
            tile@ == ppu@.chr().subrange(
                bank + tile_index * TILE_SIZE,
                bank + tile_index * TILE_SIZE + TILE_SIZE,
            ),
    {
        let len = match &ppu.chr_ram {
            Some(chr_ram) => chr_ram.len(),
            None => ppu.chr_rom.len(),
        };
        let start = bank + tile_index * TILE_SIZE;
        match &ppu.chr_ram {
            Some(chr_ram) => slice_subrange(chr_ram.as_slice(), start, start + TILE_SIZE),
            None => slice_subrange(ppu.chr_rom.as_slice(), start, start + TILE_SIZE),
        }
    }

    /// The colour number of the pixel in column `x` and row `y` of a tile.
    fn tile_value(tile: &[u8], x: usize, y: usize) -> (value: u8)
        requires
            tile@.len() == TILE_SIZE,
            x < 8,
            y < 8,
        ensures
            value == pattern_value(tile@, 0, x as int, y as int),
            value <= 3,
    {
        plane_value(tile[y], tile[y + 8], x)
    }

    /// Draws the background of a frame.
    fn render_background(ppu: &PPU, frame: &mut Frame)
        requires
            ppu.wf(),
            ppu@.chr().len() >= CHR_SIZE,
            old(frame).wf(),
        ensures
            final(frame).wf(),
            forall|p: int|
                0 <= p < NES_PIXELS ==> #[trigger] final(frame)@[p] == ppu@.background_colour(
                    p % 256,
                    p / 256,
                ),
    {
        let bank: usize = if ppu.controller.contains(PPUCTRL::BACKGROUND_PATTERN_ADDR) {
            PATTERN_TABLE_SIZE
        } else {
            0
        };
        let mut i: usize = 0;
        while i < BACKGROUND_TILES
            invariant
                i <= BACKGROUND_TILES,
                ppu.wf(),
                ppu@.chr().len() >= CHR_SIZE,
                bank == ppu@.controller.background_bank(),
                frame.wf(),
                forall|p: int|
                    0 <= p < NES_PIXELS && background_order(p) < i * 64 ==> #[trigger] frame@[p]
                        == ppu@.background_colour(p % 256, p / 256),
            decreases BACKGROUND_TILES - i,
        {
            let tile_index = ppu.vram[i] as usize;
            let tile_x = i % TILES_PER_LINE;
            let tile_y = i / TILES_PER_LINE;
            let bg_palette = ppu.bg_palette(tile_x, tile_y);
            let tile = Frame::fetch_tile(ppu, bank, tile_index);
            let mut y: usize = 0;
            while y < 8
                invariant
                    y <= 8,
                    i < BACKGROUND_TILES,
                    tile_x == i % TILES_PER_LINE,
                    tile_y == i / TILES_PER_LINE,
                    ppu.wf(),
                    frame.wf(),
                    tile_index == ppu@.vram[i as int],
                    bank == ppu@.controller.background_bank(),
                    bank + tile_index * TILE_SIZE + TILE_SIZE <= ppu@.chr().len(),
                    tile@ == ppu@.chr().subrange(
                        bank + tile_index * TILE_SIZE,
                        bank + tile_index * TILE_SIZE + TILE_SIZE,
                    ),
                    bg_palette@ == ppu@.bg_palette(tile_x as int, tile_y as int),
                    forall|p: int|
                        0 <= p < NES_PIXELS && background_order(p) < i * 64 + y * 8
                            ==> #[trigger] frame@[p] == ppu@.background_colour(p % 256, p / 256),
                decreases 8 - y,
            {
                let mut x: usize = 0;
                while x < 8
                    invariant
                        x <= 8,
                        y < 8,
                        i < BACKGROUND_TILES,
                        tile_x == i % TILES_PER_LINE,
                        tile_y == i / TILES_PER_LINE,
                        ppu.wf(),
                        frame.wf(),
                        tile_index == ppu@.vram[i as int],
                        bank == ppu@.controller.background_bank(),
                        bank + tile_index * TILE_SIZE + TILE_SIZE <= ppu@.chr().len(),
                        tile@ == ppu@.chr().subrange(
                            bank + tile_index * TILE_SIZE,
                            bank + tile_index * TILE_SIZE + TILE_SIZE,
                        ),
                        bg_palette@ == ppu@.bg_palette(tile_x as int, tile_y as int),
                        forall|p: int|
                            0 <= p < NES_PIXELS && background_order(p) < i * 64 + y * 8 + x
                                ==> #[trigger] frame@[p] == ppu@.background_colour(
                                p % 256,
                                p / 256,
                            ),
                    decreases 8 - x,
                {
                    let value = Frame::tile_value(tile, x, y);
                    let rgb = system_palette(bg_palette[value as usize]);
                    let ghost before = frame@;
                    let ghost q = pixel_index((tile_x * 8 + x) as int, (tile_y * 8 + y) as int);
                    frame.set_pixel(tile_x * 8 + x, tile_y * 8 + y, rgb);
                    proof {
                        lemma_tile_pixel(i as int, x as int, y as int);
                        assert(rgb == ppu@.background_colour(q % 256, q / 256));
                        assert forall|p: int|
                            0 <= p < NES_PIXELS && background_order(p) < i * 64 + y * 8 + x
                                + 1 implies #[trigger] frame@[p] == ppu@.background_colour(
                            p % 256,
                            p / 256,
                        ) by {
                            lemma_background_order(p);
                            lemma_background_order(q);
                        }
                    }
                    x += 1;
                }
                y += 1;
            }
            i += 1;
        }
        assert forall|p: int| 0 <= p < NES_PIXELS implies #[trigger] frame@[p]
            == ppu@.background_colour(p % 256, p / 256) by {
            lemma_background_order(p);
        }
    }

    /// Draws the sprites of a frame over its background.
    fn render_sprites(ppu: &PPU, frame: &mut Frame)
        requires
            ppu.wf(),
            ppu@.chr().len() >= CHR_SIZE,
            old(frame).wf(),
            forall|p: int|
                0 <= p < NES_PIXELS ==> #[trigger] old(frame)@[p] == ppu@.background_colour(
                    p % 256,
                    p / 256,
                ),
        ensures
            final(frame)@ == ppu@.rendered(),
    {
        let bank: usize = if ppu.controller.contains(PPUCTRL::SPRITE_PATTERN_ADDR) {
            PATTERN_TABLE_SIZE
        } else {
            0
        };
        proof {
            assert forall|p: int| 0 <= p < NES_PIXELS implies #[trigger] frame@[p]
                == ppu@.layered_pixel(0, p) by {
                lemma_sprite_done(ppu@, 0, p);
            }
        }
        let mut n: usize = 0;
        while n < SPRITES
            invariant
                n <= SPRITES,
                ppu.wf(),
                ppu@.chr().len() >= CHR_SIZE,
                bank == ppu@.controller.sprite_bank(),
                frame.wf(),
                forall|p: int|
                    0 <= p < NES_PIXELS ==> #[trigger] frame@[p] == ppu@.layered_pixel(n as int, p),
            decreases SPRITES - n,
        {
            let i = n * 4;
            let tile_y = ppu.oam_data[i] as usize;
            let tile_index = ppu.oam_data[i + 1] as usize;
            let attr_byte: u8 = ppu.oam_data[i + 2];
            let tile_x = ppu.oam_data[i + 3] as usize;
            let flip_vertical = attr_byte & 0x80 != 0;
            let flip_horizontal = attr_byte & 0x40 != 0;
            proof {
                lemma_sprite_bits(attr_byte);
            }
            let palette_idx = attr_byte & 0b11;
            let sprite_palette = ppu.sprite_palette(palette_idx);
            let tile = Frame::fetch_tile(ppu, bank, tile_index);
            proof {
                assert forall|p: int| 0 <= p < NES_PIXELS implies #[trigger] frame@[p]
                    == partial_pixel(ppu@, n as int, 0, p) by {
                    lemma_sprite_done(ppu@, n as int, p);
                }
            }
            let mut y: usize = 0;
            while y < 8
                invariant
                    y <= 8,
                    n < SPRITES,
                    ppu.wf(),
                    frame.wf(),
                    tile_y == ppu@.oam_data[4 * n as int],
                    tile_index == ppu@.oam_data[4 * n as int + 1],
                    attr_byte == ppu@.oam_data[4 * n as int + 2],
                    tile_x == ppu@.oam_data[4 * n as int + 3],
                    flip_vertical == (attr_byte & 0x80 != 0),
                    flip_horizontal == (attr_byte & 0x40 != 0),
                    bank == ppu@.controller.sprite_bank(),
                    bank + tile_index * TILE_SIZE + TILE_SIZE <= ppu@.chr().len(),
                    tile@ == ppu@.chr().subrange(
                        bank + tile_index * TILE_SIZE,
                        bank + tile_index * TILE_SIZE + TILE_SIZE,
                    ),
                    sprite_palette@ == ppu@.sprite_palette((attr_byte & 0b11) as u8),
                    forall|p: int|
                        0 <= p < NES_PIXELS ==> #[trigger] frame@[p] == partial_pixel(
                            ppu@,
                            n as int,
                            y * 8,
                            p,
                        ),
                decreases 8 - y,
            {
                let mut x: usize = 0;
                while x < 8
                    invariant
                        x <= 8,
                        y < 8,
                        n < SPRITES,
                        ppu.wf(),
                        frame.wf(),
                        tile_y == ppu@.oam_data[4 * n as int],
                        tile_index == ppu@.oam_data[4 * n as int + 1],
                        attr_byte == ppu@.oam_data[4 * n as int + 2],
                        tile_x == ppu@.oam_data[4 * n as int + 3],
                        flip_vertical == (attr_byte & 0x80 != 0),
                        flip_horizontal == (attr_byte & 0x40 != 0),
                        bank == ppu@.controller.sprite_bank(),
                        bank + tile_index * TILE_SIZE + TILE_SIZE <= ppu@.chr().len(),
                        tile@ == ppu@.chr().subrange(
                            bank + tile_index * TILE_SIZE,
                            bank + tile_index * TILE_SIZE + TILE_SIZE,
                        ),
                        sprite_palette@ == ppu@.sprite_palette((attr_byte & 0b11) as u8),
                        forall|p: int|
                            0 <= p < NES_PIXELS ==> #[trigger] frame@[p] == partial_pixel(
                                ppu@,
                                n as int,
                                y * 8 + x,
                                p,
                            ),
                    decreases 8 - x,
                {
                    let value = Frame::tile_value(tile, x, y);
                    let px = if flip_horizontal {
                        tile_x + 7 - x
                    } else {
                        tile_x + x
                    };
                    let py = if flip_vertical {
                        tile_y + 7 - y
                    } else {
                        tile_y + y
                    };
                    let ghost before = frame@;
                    let ghost q = pixel_index(px as int, py as int);
                    if value != 0 && py * NES_PIXEL_WIDTH + px < NES_PIXELS {
                        let rgb = system_palette(sprite_palette[value as usize]);
                        frame.set_pixel(px, py, rgb);
                    }
                    proof {
                        assert forall|p: int| 0 <= p < NES_PIXELS implies #[trigger] frame@[p]
                            == partial_pixel(ppu@, n as int, y * 8 + x + 1, p) by {
                            lemma_sprite_pixel(ppu@, n as int, x as int, y as int, p);
                            assert(before[p] == partial_pixel(ppu@, n as int, y * 8 + x, p));
                        }
                    }
                    x += 1;
                }
                y += 1;
            }
            proof {
                assert forall|p: int| 0 <= p < NES_PIXELS implies #[trigger] frame@[p]
                    == ppu@.layered_pixel(n as int + 1, p) by {
                    lemma_sprite_done(ppu@, n as int, p);
                }
            }
            n += 1;
        }
        assert(frame@ =~= ppu@.rendered());
    }

    /// Draws a frame: the background from the first nametable, then the 64
    /// sprites over it, later ones over earlier ones.
    pub fn render(ppu: &PPU, frame: &mut Frame)
        requires
            ppu.wf(),
            ppu@.chr().len() >= CHR_SIZE,
            old(frame).wf(),
        ensures
            final(frame)@ == ppu@.rendered(),
            final(frame).wf(),
    {
        Frame::render_background(ppu, frame);
        Frame::render_sprites(ppu, frame);
    }
}

} // verus!

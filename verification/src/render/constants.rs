//! The size of the picture.

use vstd::prelude::*;

verus! {

/// Pixels in a line of the picture.
pub const NES_PIXEL_WIDTH: usize = 256;

/// Lines of the picture.
pub const NES_PIXEL_HEIGHT: usize = 240;

/// Pixels of the picture.
pub const NES_PIXELS: usize = 61440;

/// Bytes of one of the two pattern tables.
pub const PATTERN_TABLE_SIZE: usize = 0x1000;

/// Bytes of one tile in a pattern table: two planes of eight rows.
pub const TILE_SIZE: usize = 16;

/// Tiles in a line of the background.
pub const TILES_PER_LINE: usize = 32;

/// Tiles of the background.
pub const BACKGROUND_TILES: usize = 960;

/// Sprites in the sprite memory.
pub const SPRITES: usize = 64;

} // verus!

//! The picture unit: for now it only holds its tile set.

use crate::bus::Bus;
use vstd::prelude::*;

verus! {

/// Tiles in the tile set.
pub const TILE_COUNT: usize = 384;

/// Pixels along each side of a tile.
pub const TILE_SIDE: usize = 8;

/// One of the four shades of a pixel.
#[derive(Copy, Clone, PartialEq, Eq, Structural, Debug)]
pub enum ColorId {
    Zero,
    One,
    Two,
    Three,
}

pub struct Ppu {
    tile_set: [[[ColorId; 8]; 8]; 384],
}

impl Ppu {
    /// The shade of the pixel in row `row` and column `column` of tile
    /// `tile`.
    pub closed spec fn pixel(&self, tile: int, row: int, column: int) -> ColorId {
        self.tile_set@[tile]@[row]@[column]
    }

    /// A tile set in which every pixel has shade zero.
    pub fn new() -> (ppu: Ppu)
        ensures
            forall|tile: int, row: int, column: int|
                0 <= tile < TILE_COUNT && 0 <= row < TILE_SIDE && 0 <= column < TILE_SIDE
                    ==> #[trigger] ppu.pixel(tile, row, column) == ColorId::Zero,
    {
        Ppu { tile_set: [[[ColorId::Zero; 8]; 8]; 384] }
    }

    /// One cycle of the picture unit: the bus stays as it is.
    pub fn cycle(bus: &mut Bus)
        ensures
            final(bus)@ == old(bus)@,
    {
    }
}

} // verus!

//! Terrain tiles drawn from the upper grass row of the world sprite sheet,
//! with sheet positions given as 16-bit coordinates.

use crate::gamemap::{sheet_index, WORLD_INDEX_ROWS, WORLD_INDEX_SIZE};
use vstd::prelude::*;

verus! {

/// Row of the world sprite sheet that holds this module's grass sprites.
pub const GRASS_ROW: u16 = 12;

/// Turns a column and a row of the world sprite sheet into a sprite index.
/// Every pair of 16-bit coordinates has an index that fits.
pub fn coords_to_index(x: u16, y: u16) -> (index: usize)
    ensures
        index == sheet_index(x as int, y as int),
{
    (y as usize * WORLD_INDEX_SIZE) + x as usize
}

/// The kinds of terrain a map cell can show.
#[derive(Clone, Copy, Debug, PartialEq, Eq, Structural)]
pub enum TileType {
    Grass1,
    Grass2,
    Grass3,
    Grass4,
}

impl TileType {
    /// Column of the world sprite sheet that holds this terrain's sprite.
    pub open spec fn column(self) -> int {
        match self {
            TileType::Grass1 => 28,
            TileType::Grass2 => 29,
            TileType::Grass3 => 30,
            TileType::Grass4 => 31,
        }
    }
}

/// One cell of a map: the index, on the world sprite sheet, of the sprite the
/// cell is drawn with.
#[derive(Copy, Clone, Debug, PartialEq, Eq, Structural)]
pub struct Tile {
    pub index: usize,
}

impl Tile {
    /// The tile that shows `tile_type`: its sprite stands in this module's
    /// grass row, in the column of that kind of terrain.
    pub open spec fn of_tile_type(tile_type: TileType) -> Tile {
        Tile { index: sheet_index(tile_type.column(), GRASS_ROW as int) as usize }
    }

    /// The tile that shows `tile_type`. Its sprite lies on the world sprite
    /// sheet.
    pub fn from_tile_type(tile_type: TileType) -> (tile: Tile)
        ensures
            tile == Self::of_tile_type(tile_type),
            tile.index == sheet_index(tile_type.column(), GRASS_ROW as int),
            tile.index < WORLD_INDEX_SIZE * WORLD_INDEX_ROWS,
    {
        match tile_type {
            TileType::Grass1 => Tile { index: coords_to_index(28, GRASS_ROW) },
            TileType::Grass2 => Tile { index: coords_to_index(29, GRASS_ROW) },
            TileType::Grass3 => Tile { index: coords_to_index(30, GRASS_ROW) },
            TileType::Grass4 => Tile { index: coords_to_index(31, GRASS_ROW) },
        }
    }
}

} // verus!

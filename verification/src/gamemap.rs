//! The game map: a grid of terrain tiles, each naming a sprite on the world
//! sprite sheet.

use rand::Rng;
use vstd::arithmetic::div_mod::lemma_fundamental_div_mod_converse;
use vstd::prelude::*;

verus! {

/// Number of sprites in one row of the world sprite sheet.
pub const WORLD_INDEX_SIZE: usize = 55;

/// Number of rows of the world sprite sheet.
pub const WORLD_INDEX_ROWS: usize = 39;

/// Index, on a sprite sheet read row by row, of the sprite in column `x` of
/// row `y`.
pub open spec fn sheet_index(x: int, y: int) -> int {
    y * WORLD_INDEX_SIZE + x
}

/// Turns a column and a row of the world sprite sheet into a sprite index.
pub fn coords_to_index(x: usize, y: usize) -> (index: usize)
    requires
        sheet_index(x as int, y as int) <= usize::MAX,
    ensures
        index == sheet_index(x as int, y as int),
{
    (y * WORLD_INDEX_SIZE) + x
}

/// Row of the world sprite sheet that holds the grass sprites.
pub const GRASS_ROW: usize = 33;

/// Smallest roll that `TileType::sample` draws.
pub const ROLL_MIN: i32 = 0;

/// Largest roll that `TileType::sample` draws.
pub const ROLL_MAX: i32 = 2;

/// The kinds of terrain a map cell can show.
#[derive(Clone, Copy, Debug, PartialEq, Eq, Structural)]
pub enum TileType {
    Grass1,
    Grass2,
    Grass3,
    Grass4,
}

impl TileType {
    /// The kind of terrain that a roll stands for: rolls 0, 1 and 2 are the
    /// first three grasses, every other roll is the fourth.
    pub open spec fn of_roll(roll: int) -> TileType {
        if roll == 0 {
            TileType::Grass1
        } else if roll == 1 {
            TileType::Grass2
        } else if roll == 2 {
            TileType::Grass3
        } else {
            TileType::Grass4
        }
    }

    /// Whether `sample` can return this kind of terrain, that is, whether a
    /// roll between `ROLL_MIN` and `ROLL_MAX` stands for it.
    pub open spec fn can_be_sampled(self) -> bool {
        exists|roll: int| ROLL_MIN <= roll <= ROLL_MAX && self == #[trigger] Self::of_roll(roll)
    }

    /// Column of the world sprite sheet that holds this terrain's sprite.
    pub open spec fn column(self) -> int {
        match self {
            TileType::Grass1 => 28,
            TileType::Grass2 => 29,
            TileType::Grass3 => 30,
            TileType::Grass4 => 31,
        }
    }

    /// The kind of terrain that `roll` stands for.
    pub fn from_roll(roll: i32) -> (tile_type: TileType)
        ensures
            tile_type == Self::of_roll(roll as int),
    {
        match roll {
            0 => TileType::Grass1,
            1 => TileType::Grass2,
            2 => TileType::Grass3,
            _ => TileType::Grass4,
        }
    }

    /// Draws a kind of terrain at random: one roll between `ROLL_MIN` and
    /// `ROLL_MAX` from the thread's generator, read by `from_roll`.
    ///
    /// Which roll comes is not known, so the contract states what holds of
    /// every roll in that range; in particular the result is never `Grass4`.
    pub fn sample() -> (tile_type: TileType)
        ensures
            tile_type.can_be_sampled(),
            tile_type != TileType::Grass4,
    {
        let roll: i32 = gen_range_inclusive(ROLL_MIN, ROLL_MAX);
        Self::from_roll(roll)
    }
}

/// One cell of the map: the index, on the world sprite sheet, of the sprite
/// the cell is drawn with.
#[derive(Copy, Clone, Debug, PartialEq, Eq, Structural)]
pub struct Tile {
    pub index: usize,
}

impl Tile {
    /// The tile that shows `tile_type`: its sprite stands in the grass row of
    /// the world sprite sheet, in the column of that kind of terrain.
    pub open spec fn of_tile_type(tile_type: TileType) -> Tile {
        Tile { index: sheet_index(tile_type.column(), GRASS_ROW as int) as usize }
    }

    /// Whether this tile shows a kind of terrain that `TileType::sample` can
    /// return.
    pub open spec fn is_sampled_grass(self) -> bool {
        exists|tile_type: TileType|
            tile_type.can_be_sampled() && self == #[trigger] Self::of_tile_type(tile_type)
    }

    /// The tile that shows `tile_type`. Its sprite lies on the world sprite
    /// sheet.
    pub fn from_tile_type(tile_type: TileType) -> (tile: Tile)
        ensures
            tile == Self::of_tile_type(tile_type),
            tile.index == sheet_index(tile_type.column(), GRASS_ROW as int),
            tile.index < WORLD_INDEX_SIZE * WORLD_INDEX_ROWS,
    {
        match tile_type {
            TileType::Grass1 => Tile { index: coords_to_index(28, GRASS_ROW) },
            TileType::Grass2 => Tile { index: coords_to_index(29, GRASS_ROW) },
            TileType::Grass3 => Tile { index: coords_to_index(30, GRASS_ROW) },
            TileType::Grass4 => Tile { index: coords_to_index(31, GRASS_ROW) },
        }
    }
}

/// Number of cells in one row of the map.
pub const MAP_WIDTH: usize = 40;

/// Number of rows of the map.
pub const MAP_HEIGHT: usize = 30;

/// Number of cells of the map.
pub const NUM_TILES: usize = MAP_WIDTH * MAP_HEIGHT;

/// The map: its cells, row after row.
pub struct GameMap {
    pub tiles: Vec<Tile>,
}

impl View for GameMap {
    type V = Seq<Tile>;

    open spec fn view(&self) -> Seq<Tile> {
        self.tiles@
    }
}

impl GameMap {
    /// A map as `new` makes it: `NUM_TILES` cells, each showing a grass that
    /// `TileType::sample` can return.
    pub open spec fn wf(&self) -> bool {
        &&& self@.len() == NUM_TILES
        &&& forall|i: int| 0 <= i < self@.len() ==> (#[trigger] self@[i]).is_sampled_grass()
    }

    /// The position that `index_to_map` gives for a cell: column first, then
    /// row, counting `MAP_WIDTH` cells to a row.
    pub open spec fn cell_of(index: int) -> (int, int) {
        (index % MAP_WIDTH as int, index / MAP_WIDTH as int)
    }

    /// The index that `map_index` gives for column `x` of row `y`. It counts
    /// `MAP_HEIGHT` cells to a row.
    pub open spec fn index_of(x: int, y: int) -> int {
        y * MAP_HEIGHT + x
    }

    /// Makes a map of `NUM_TILES` cells and draws the terrain of each cell at
    /// random with `TileType::sample`.
    pub fn new() -> (map: GameMap)
        ensures
            map.wf(),
    {
        let mut rand_tiles: Vec<Tile> = Vec::new();
        for i in 0..NUM_TILES
            invariant
                rand_tiles@.len() == i,
                forall|j: int| 0 <= j < i ==> (#[trigger] rand_tiles@[j]).is_sampled_grass(),
        {
            let tile_type: TileType = TileType::sample();
            rand_tiles.push(Tile::from_tile_type(tile_type));
        }
        GameMap { tiles: rand_tiles }
    }

    /// Packs a column and a row into one index, counting `MAP_HEIGHT` cells to
    /// a row.
    pub fn map_index(x: usize, y: usize) -> (index: usize)
        requires
            Self::index_of(x as int, y as int) <= usize::MAX,
        ensures
            index == Self::index_of(x as int, y as int),
    {
        (y * MAP_HEIGHT) + x
    }

    /// The column and the row of the cell that stands at `index` in `tiles`.
    pub fn index_to_map(index: usize) -> (coords: (usize, usize))
        ensures
            (coords.0 as int, coords.1 as int) == Self::cell_of(index as int),
            coords.0 < MAP_WIDTH,
            index == coords.1 * MAP_WIDTH + coords.0,
            index < NUM_TILES ==> coords.1 < MAP_HEIGHT,
    {
        let x: usize = index % MAP_WIDTH;
        let y: usize = index / MAP_WIDTH;
        (x, y)
    }
}

/// On the world sprite sheet, two positions with the same index are the same
/// position.
pub proof fn lemma_sheet_index_unique(x1: int, y1: int, x2: int, y2: int)
    requires
        0 <= x1 < WORLD_INDEX_SIZE,
        0 <= x2 < WORLD_INDEX_SIZE,
        sheet_index(x1, y1) == sheet_index(x2, y2),
    ensures
        x1 == x2,
        y1 == y2,
{
}

/// `TileType::sample` can return every kind of terrain but `Grass4`.
pub proof fn lemma_sampled_all_but_grass4(tile_type: TileType)
    ensures
        tile_type.can_be_sampled() <==> tile_type != TileType::Grass4,
{
    assert(TileType::of_roll(0) == TileType::Grass1);
    assert(TileType::of_roll(1) == TileType::Grass2);
    assert(TileType::of_roll(2) == TileType::Grass3);
}

/// Different kinds of terrain are drawn with different sprites.
pub proof fn lemma_tile_tells_tile_type(a: TileType, b: TileType)
    requires
        Tile::of_tile_type(a) == Tile::of_tile_type(b),
    ensures
        a == b,
{
}

/// Every cell of a well-formed map is drawn with a sprite of the world
/// sprite sheet, and with none of `Grass4`.
pub proof fn lemma_wf_tiles_on_sheet(map: GameMap, i: int)
    requires
        map.wf(),
        0 <= i < NUM_TILES,
    ensures
        map@[i].index < WORLD_INDEX_SIZE * WORLD_INDEX_ROWS,
        map@[i] != Tile::of_tile_type(TileType::Grass4),
{
    assert(map@[i].is_sampled_grass());
    let tile_type = choose|tile_type: TileType|
        tile_type.can_be_sampled() && map@[i] == #[trigger] Tile::of_tile_type(tile_type);
    lemma_sampled_all_but_grass4(tile_type);
}

/// `index_to_map` undoes the packing that counts `MAP_WIDTH` cells to a row.
pub proof fn lemma_cell_of_row_major(x: int, y: int)
    requires
        0 <= x < MAP_WIDTH,
        0 <= y,
    ensures
        GameMap::cell_of(y * MAP_WIDTH + x) == (x, y),
{
    lemma_fundamental_div_mod_converse(y * MAP_WIDTH + x, MAP_WIDTH as int, y, x);
}

/// `map_index` counts `MAP_HEIGHT` cells to a row and `index_to_map` counts
/// `MAP_WIDTH`, so `index_to_map` gives back the position that `map_index`
/// was given exactly for the positions of row 0.
pub proof fn lemma_index_of_round_trip(x: int, y: int)
    requires
        0 <= x,
        0 <= y,
    ensures
        GameMap::cell_of(GameMap::index_of(x, y)) == (x, y) <==> x < MAP_WIDTH && y == 0,
{
}

/// Calls `rand::Rng::gen_range` on `rand::thread_rng()` with the inclusive
/// range from `low` to `high`.
///
/// Trusted, not proved: the number returned lies in that range. The range
/// must not be empty, because `gen_range` panics on an empty range. Nothing is
/// claimed about which number of the range comes back.
#[verifier::external_body]
fn gen_range_inclusive(low: i32, high: i32) -> (roll: i32)
    requires
        low <= high,
    ensures
        low <= roll <= high,
{
    rand::thread_rng().gen_range(low..=high)
}

} // verus!

use northlands::map::{coords_to_index, Tile, TileType, GRASS_ROW};

#[test]
fn short_coords_to_index_counts_row_by_row() {
    assert_eq!(coords_to_index(0, 0), 0);
    assert_eq!(coords_to_index(54, 0), 54);
    assert_eq!(coords_to_index(0, 1), 55);
    assert_eq!(coords_to_index(28, 12), 688);
}

#[test]
fn short_coords_to_index_takes_the_largest_coordinates() {
    assert_eq!(coords_to_index(u16::MAX, u16::MAX), 3_669_960);
    assert_eq!(coords_to_index(0, u16::MAX), 3_604_425);
    assert_eq!(coords_to_index(u16::MAX, 0), 65_535);
}

#[test]
fn upper_row_from_tile_type_names_the_grass_sprites() {
    assert_eq!(GRASS_ROW, 12);
    assert_eq!(Tile::from_tile_type(TileType::Grass1), Tile { index: 688 });
    assert_eq!(Tile::from_tile_type(TileType::Grass2), Tile { index: 689 });
    assert_eq!(Tile::from_tile_type(TileType::Grass3), Tile { index: 690 });
    assert_eq!(Tile::from_tile_type(TileType::Grass4), Tile { index: 691 });
}

#[test]
fn upper_row_tiles_differ_from_the_game_map_tiles() {
    let upper = Tile::from_tile_type(TileType::Grass1);
    let lower = northlands::gamemap::Tile::from_tile_type(northlands::gamemap::TileType::Grass1);
    assert_eq!(lower.index - upper.index, 21 * 55);
}

//! Tile-map logic for Northlands, a small tile-based game.
//!
//! The crate holds the rules of the game that do not depend on the game
//! engine, each with a contract that Verus proves:
//!
//! - `gamemap`: the map of randomly drawn grass tiles, and how positions on
//!   the map and on the world sprite sheet become indices;
//! - `map`: the grass tiles of the sheet's upper grass row;
//! - `animation`: the flip of a two-frame sprite;
//! - `app_state`: the step from loading the sprites to showing the map.
//!
//! Random numbers come from the `rand` crate, through one trusted function in
//! `gamemap`.

pub mod animation;
pub mod app_state;
pub mod gamemap;
pub mod map;

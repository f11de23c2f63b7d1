//! Runtime core of a small 2D platformer: an image-encoded tile map that is
//! decoded into level geometry, and the rules that turn player input into
//! walk, jump and ladder-climb requests.
//!
//! World coordinates are whole units. The level is laid out on an
//! 18-unit tile raster, so every position the library computes is exact.

pub mod climb;
pub mod controls;
pub mod fuel;
pub mod geometry;
pub mod grid;
pub mod kinds;
pub mod level;
pub mod ship;
pub mod state;
pub mod tank;
pub mod tile;

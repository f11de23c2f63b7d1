//! The affine map from grid cells to world positions.

use vstd::prelude::*;

verus! {

/// Edge length of one tile, in world units.
pub const TILE_SIZE: i128 = 18;

/// Width of the viewport, in world units.
pub const WIDTH: i128 = 800;

/// Height of the viewport, in world units.
pub const HEIGHT: i128 = 600;

/// A position in world space. `y` grows upwards.
#[derive(Clone, Copy, Debug, PartialEq, Eq)]
pub struct WorldPos {
    pub x: i128,
    pub y: i128,
}

/// World x of the centre of grid column 0.
pub open spec fn base_offset_x() -> int {
    TILE_SIZE / 2 - WIDTH / 4
}

/// World y of the centre of grid row 0.
pub open spec fn base_offset_y() -> int {
    HEIGHT / 4
}

/// World x of the centre of grid column `grid_x`.
pub open spec fn world_x(grid_x: int) -> int {
    base_offset_x() + TILE_SIZE * grid_x
}

/// World y of the centre of grid row `grid_y`. Row 0 is the topmost row.
pub open spec fn world_y(grid_y: int) -> int {
    base_offset_y() - TILE_SIZE * grid_y
}

/// World x of the centre of a sprite enlarged `scale` times and anchored at
/// grid column `grid_x`.
pub open spec fn scaled_world_x(grid_x: int, scale: int) -> int {
    base_offset_x() + TILE_SIZE * (grid_x - 1) + (TILE_SIZE * scale + TILE_SIZE) / 2
}

/// World y of the centre of a sprite enlarged `scale` times and anchored at
/// grid row `grid_y`.
pub open spec fn scaled_world_y(grid_y: int, scale: int) -> int {
    base_offset_y() - TILE_SIZE * (grid_y - 1) - (TILE_SIZE * scale - TILE_SIZE) / 2
}

/// Where a tile at grid cell (`grid_x`, `grid_y`) sits in the world, with or
/// without an enlargement.
pub open spec fn position_of(grid_x: int, grid_y: int, scale: Option<usize>) -> (int, int) {
    match scale {
        None => (world_x(grid_x), world_y(grid_y)),
        Some(s) => (scaled_world_x(grid_x, s as int), scaled_world_y(grid_y, s as int)),
    }
}

/// Computes the world position of the tile at grid cell (`grid_x`, `grid_y`).
pub fn tile_origin(grid_x: usize, grid_y: usize) -> (pos: WorldPos)
    ensures
        pos.x == world_x(grid_x as int),
        pos.y == world_y(grid_y as int),
{
    let x: i128 = TILE_SIZE / 2 - WIDTH / 4 + TILE_SIZE * (grid_x as i128);
    let y: i128 = HEIGHT / 4 - TILE_SIZE * (grid_y as i128);
    WorldPos { x, y }
}

/// Computes the world position of a sprite enlarged `scale` times at grid
/// cell (`grid_x`, `grid_y`).
pub fn scaled_tile_origin(grid_x: usize, grid_y: usize, scale: usize) -> (pos: WorldPos)
    ensures
        pos.x == scaled_world_x(grid_x as int, scale as int),
        pos.y == scaled_world_y(grid_y as int, scale as int),
{
    let half: i128 = TILE_SIZE / 2;
    let s: i128 = scale as i128;
    assert((TILE_SIZE * s + TILE_SIZE) / 2 == half * (s + 1));
    assert((TILE_SIZE * s - TILE_SIZE) / 2 == half * (s - 1));
    let x: i128 = half - WIDTH / 4 + TILE_SIZE * (grid_x as i128 - 1) + half * (s + 1);
    let y: i128 = HEIGHT / 4 - TILE_SIZE * (grid_y as i128 - 1) - half * (s - 1);
    WorldPos { x, y }
}

/// Computes [`position_of`].
pub fn tile_position(grid_x: usize, grid_y: usize, scale: Option<usize>) -> (pos: WorldPos)
    ensures
        (pos.x as int, pos.y as int) == position_of(grid_x as int, grid_y as int, scale),
{
    match scale {
        None => tile_origin(grid_x, grid_y),
        Some(s) => scaled_tile_origin(grid_x, grid_y, s),
    }
}

/// The map from grid to world is affine: one column further is one tile to
/// the right, one row further is one tile down, and nothing else moves.
pub proof fn grid_to_world_is_affine(grid_x: int, grid_y: int)
    ensures
        world_x(grid_x + 1) - world_x(grid_x) == TILE_SIZE,
        world_y(grid_y) - world_y(grid_y + 1) == TILE_SIZE,
        world_x(grid_x) == world_x(0) + TILE_SIZE * grid_x,
        world_y(grid_y) == world_y(0) - TILE_SIZE * grid_y,
{
}

/// World y strictly decreases as the grid row grows.
pub proof fn world_y_strictly_decreases(upper: int, lower: int)
    requires
        upper < lower,
    ensures
        world_y(upper) > world_y(lower),
{
}

/// World x strictly increases as the grid column grows.
pub proof fn world_x_strictly_increases(left: int, right: int)
    requires
        left < right,
    ensures
        world_x(left) < world_x(right),
{
}

/// An enlarged sprite keeps its left edge on the left edge of the plain tile
/// in its own column, and its top edge on the top edge of the plain tile one
/// row above its own row.
pub proof fn scaled_sprite_is_anchored(grid_x: int, grid_y: int, scale: int)
    ensures
        2 * scaled_world_x(grid_x, scale) - TILE_SIZE * scale == 2 * world_x(grid_x) - TILE_SIZE,
        2 * scaled_world_y(grid_y, scale) + TILE_SIZE * scale == 2 * world_y(grid_y - 1)
            + TILE_SIZE,
{
}

} // verus!

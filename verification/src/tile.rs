//! Placed tiles: what the level builder hands to the world.

use vstd::prelude::*;
use crate::geometry::{tile_position, position_of, world_x, world_y, WorldPos, TILE_SIZE};

verus! {

/// Number of tiles on the terrain sprite sheet (20 columns, 9 rows).
pub const TERRAIN_SHEET_TILES: usize = 180;

/// Number of tiles on the ship sprite sheet (16 columns, 7 rows).
pub const SHIP_SHEET_TILES: usize = 112;

/// Index of the floor tile on the terrain sheet.
pub const FLOOR_TILE_INDEX: usize = 122;

/// A sprite sheet that a tile's palette index refers to.
#[derive(Clone, Copy, Debug, PartialEq, Eq, Structural)]
pub enum Sheet {
    Terrain,
    Ship,
}

/// What a placed tile is. The kind decides the sheet, the collision shape
/// and which regeneration removes the tile.
#[derive(Clone, Copy, Debug, PartialEq, Eq, Structural)]
pub enum TileKind {
    /// A solid floor tile decoded from the occupancy grid.
    Floor,
    /// Permanent ship structure that blocks motion.
    Hull,
    /// Permanent ship structure that is only drawn.
    Decor,
    /// A ladder segment: reports overlap, blocks nothing.
    Ladder,
    /// The port through which the tank is fed: reports overlap, blocks nothing.
    TankInput,
    /// The waste-disposal port: reports overlap, blocks nothing.
    Toilet,
    /// Part of the fuel display inside the tank.
    Fuel,
}

/// A collision layer.
#[derive(Clone, Copy, Debug, PartialEq, Eq, Structural)]
pub enum GameLayer {
    Player,
    Ground,
}

/// An axis-aligned box attached to a static body.
#[derive(Clone, Copy, Debug, PartialEq, Eq)]
pub struct Collider {
    pub width: u32,
    pub height: u32,
    /// A sensor reports the bodies that overlap it and exerts no force.
    pub sensor: bool,
    /// The layer that the box belongs to.
    pub layer: GameLayer,
    /// The layer whose bodies the box collides with.
    pub collides_with: GameLayer,
}

/// One tile with its place in the world.
#[derive(Clone, Copy, Debug, PartialEq, Eq)]
pub struct PlacedTile {
    pub kind: TileKind,
    /// Palette index on the tile's sheet.
    pub index: usize,
    /// Grid column.
    pub x: usize,
    /// Grid row, counted from the top.
    pub y: usize,
    /// Enlargement of the sprite, for tiles that span several cells.
    pub scale: Option<usize>,
    /// Centre of the sprite in the world.
    pub position: WorldPos,
    /// Collision shape, for the kinds that have one.
    pub collider: Option<Collider>,
}

/// The sheet on which tiles of `kind` are looked up.
pub open spec fn sheet_of(kind: TileKind) -> Sheet {
    if kind == TileKind::Floor {
        Sheet::Terrain
    } else {
        Sheet::Ship
    }
}

/// Number of tiles on `sheet`.
pub open spec fn sheet_len(sheet: Sheet) -> int {
    match sheet {
        Sheet::Terrain => TERRAIN_SHEET_TILES as int,
        Sheet::Ship => SHIP_SHEET_TILES as int,
    }
}

/// Whether tiles of `kind` detect overlap instead of blocking.
pub open spec fn is_sensor(kind: TileKind) -> bool {
    kind == TileKind::Ladder || kind == TileKind::TankInput || kind == TileKind::Toilet
}

/// The box of the level's colliders with the given edge: it belongs to the
/// ground and collides with the player only.
pub open spec fn ground_box(edge: int, sensor: bool) -> Collider {
    Collider {
        width: edge as u32,
        height: edge as u32,
        sensor,
        layer: GameLayer::Ground,
        collides_with: GameLayer::Player,
    }
}

/// The collision shape of a tile of `kind`: none for decor, a half-tile
/// sensor box for the waste port (its sprite is drawn enlarged), and a box of
/// exactly one tile square for every other kind.
pub open spec fn collider_of(kind: TileKind) -> Option<Collider> {
    match kind {
        TileKind::Decor => None,
        TileKind::Toilet => Some(ground_box(TILE_SIZE / 2, true)),
        _ => Some(ground_box(TILE_SIZE as int, is_sensor(kind))),
    }
}

/// The tile of `kind` with palette index `index` at grid cell (`x`, `y`).
pub open spec fn placed(
    kind: TileKind,
    index: usize,
    x: usize,
    y: usize,
    scale: Option<usize>,
) -> PlacedTile {
    let (wx, wy) = position_of(x as int, y as int, scale);
    PlacedTile {
        kind,
        index,
        x,
        y,
        scale,
        position: WorldPos { x: wx as i128, y: wy as i128 },
        collider: collider_of(kind),
    }
}

impl TileKind {
    /// The sheet on which tiles of this kind are looked up.
    pub fn sheet(self) -> (sheet: Sheet)
        ensures
            sheet == sheet_of(self),
    {
        match self {
            TileKind::Floor => Sheet::Terrain,
            _ => Sheet::Ship,
        }
    }

    /// The collision shape that tiles of this kind carry.
    pub fn collider(self) -> (shape: Option<Collider>)
        ensures
            shape == collider_of(self),
    {
        let tile: u32 = 18;
        assert(tile == TILE_SIZE);
        let (edge, sensor): (u32, bool) = match self {
            TileKind::Decor => {
                return None;
            },
            TileKind::Toilet => (tile / 2, true),
            TileKind::Ladder | TileKind::TankInput => (tile, true),
            TileKind::Floor | TileKind::Hull | TileKind::Fuel => (tile, false),
        };
        Some(
            Collider {
                width: edge,
                height: edge,
                sensor,
                layer: GameLayer::Ground,
                collides_with: GameLayer::Player,
            },
        )
    }
}

impl Sheet {
    /// Number of tiles on this sheet.
    pub fn len(self) -> (n: usize)
        ensures
            n == sheet_len(self),
    {
        match self {
            Sheet::Terrain => TERRAIN_SHEET_TILES,
            Sheet::Ship => SHIP_SHEET_TILES,
        }
    }
}

impl PlacedTile {
    /// Places a tile of `kind` with palette index `index` at grid cell
    /// (`x`, `y`): computes its world position and attaches the collision
    /// shape of its kind.
    pub fn place(kind: TileKind, index: usize, x: usize, y: usize, scale: Option<usize>) -> (tile:
        PlacedTile)
        ensures
            tile == placed(kind, index, x, y, scale),
    {
        PlacedTile {
            kind,
            index,
            x,
            y,
            scale,
            position: tile_position(x, y, scale),
            collider: kind.collider(),
        }
    }

    /// Whether this tile is what [`placed`] makes of its kind, index, cell
    /// and enlargement.
    pub open spec fn wf(&self) -> bool {
        *self == placed(self.kind, self.index, self.x, self.y, self.scale)
    }

    /// Factor by which the sprite is enlarged: 1 unless the tile has a scale.
    pub fn size_scale(&self) -> (factor: usize)
        ensures
            factor == match self.scale {
                Some(s) => s,
                None => 1usize,
            },
    {
        match self.scale {
            Some(s) => s,
            None => 1,
        }
    }
}

/// Every kind but decor carries a collider on a static body; the sensors are
/// exactly the ladder, the tank-input port and the waste port; whatever
/// blocks motion is exactly one tile square; and every collider belongs to
/// the ground and collides with the player only.
pub proof fn collider_policy(kind: TileKind)
    ensures
        collider_of(kind) is None <==> kind == TileKind::Decor,
        collider_of(kind) matches Some(c) ==> (c.sensor <==> is_sensor(kind)),
        collider_of(kind) matches Some(c) ==> (!c.sensor ==> c.width == TILE_SIZE && c.height
            == TILE_SIZE),
        collider_of(kind) matches Some(c) ==> c.layer == GameLayer::Ground && c.collides_with
            == GameLayer::Player,
{
}

/// The world position of a plain placed tile is the affine image of its
/// grid cell.
pub proof fn placed_tile_position(kind: TileKind, index: usize, x: usize, y: usize)
    ensures
        placed(kind, index, x, y, None).position.x == world_x(x as int),
        placed(kind, index, x, y, None).position.y == world_y(y as int),
        placed(kind, index, x, y, None).wf(),
{
}

} // verus!

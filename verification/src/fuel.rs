//! The fuel level and its tiered display inside the tank.

use vstd::prelude::*;
use crate::kinds::{all_of, all_placed};
use crate::tile::{placed, PlacedTile, TileKind};

verus! {

/// Highest level that the display shows; the level itself may exceed it.
pub const DISPLAY_CEILING: u32 = 100;

/// Fuel units that one tier of the display stands for.
pub const TIER_UNITS: u32 = 20;

/// Number of tiers of the display, each one grid row high.
pub const TIERS: usize = 5;

/// Grid row of the splash when the tank is full.
pub const TANK_TOP_ROW: usize = 6;

/// Grid row below the tank; fuel columns end above it.
pub const TANK_BOTTOM_ROW: usize = 12;

/// Right-hand grid column of the tank.
pub const TANK_RIGHT_COLUMN: usize = 19;

/// Left-hand grid column of the tank.
pub const TANK_LEFT_COLUMN: usize = 18;

/// Palette index of the splash cap.
pub const SPLASH_TILE_INDEX: usize = 95;

/// Palette index of solid fuel.
pub const FUEL_TILE_INDEX: usize = 45;

/// Fuel units added by one feeding.
pub const FEED_UNITS: u32 = 10;

/// The amount of fuel in the tank, in whole units.
#[derive(Clone, Copy, Debug, PartialEq, Eq, Structural)]
pub struct FuelLevel(pub u32);

/// The level as the display shows it: capped at the display ceiling.
pub open spec fn displayed_level(level: int) -> int {
    if level < DISPLAY_CEILING {
        level
    } else {
        DISPLAY_CEILING as int
    }
}

/// Number of tiers that are full at `level`.
pub open spec fn filled_tiers(level: int) -> int {
    displayed_level(level) / (TIER_UNITS as int)
}

/// Number of tiers that are empty at `level`.
pub open spec fn empty_tiers(level: int) -> int {
    TIERS - filled_tiers(level)
}

/// Grid row of the splash cap at `level`.
pub open spec fn splash_row(level: int) -> int {
    TANK_TOP_ROW + empty_tiers(level)
}

/// Tank column of the `i`-th tile of a row pair: right first, then left.
pub open spec fn tank_column(i: int) -> usize {
    if i % 2 == 0 {
        TANK_RIGHT_COLUMN
    } else {
        TANK_LEFT_COLUMN
    }
}

/// The splash cap: two tiles side by side in row `row`.
pub open spec fn splash_tiles(row: int) -> Seq<PlacedTile> {
    Seq::new(
        2,
        |i: int| placed(TileKind::Fuel, SPLASH_TILE_INDEX, tank_column(i), row as usize, None),
    )
}

/// Solid fuel: two tiles in every row below `row` and above the tank's
/// lower bound, row by row from the top.
pub open spec fn fuel_column_tiles(row: int) -> Seq<PlacedTile> {
    Seq::new(
        (2 * (TANK_BOTTOM_ROW - (row + 1))) as nat,
        |i: int|
            placed(TileKind::Fuel, FUEL_TILE_INDEX, tank_column(i), (row + 1 + i / 2) as usize, None),
    )
}

/// The fuel display at `level`: the splash cap at the tier boundary, then
/// solid fuel down to the bottom of the tank.
pub open spec fn fuel_tiles(level: int) -> Seq<PlacedTile> {
    splash_tiles(splash_row(level)) + fuel_column_tiles(splash_row(level))
}

impl FuelLevel {
    /// The level in whole units.
    pub open spec fn units(&self) -> int {
        self.0 as int
    }

    /// An empty tank.
    pub fn new() -> (level: FuelLevel)
        ensures
            level.units() == 0,
    {
        FuelLevel(0)
    }

    /// The level as the display shows it.
    pub fn displayed(&self) -> (shown: u32)
        ensures
            shown == displayed_level(self.units()),
    {
        if self.0 < DISPLAY_CEILING {
            self.0
        } else {
            DISPLAY_CEILING
        }
    }

    /// Number of full tiers.
    pub fn filled_tiers(&self) -> (tiers: usize)
        ensures
            tiers == filled_tiers(self.units()),
            tiers <= TIERS,
    {
        (self.displayed() / TIER_UNITS) as usize
    }

    /// Number of empty tiers.
    pub fn empty_tiers(&self) -> (tiers: usize)
        ensures
            tiers == empty_tiers(self.units()),
            tiers <= TIERS,
    {
        TIERS - self.filled_tiers()
    }

    /// Grid row of the splash cap.
    pub fn splash_row(&self) -> (row: usize)
        ensures
            row == splash_row(self.units()),
            TANK_TOP_ROW <= row < TANK_BOTTOM_ROW,
    {
        TANK_TOP_ROW + self.empty_tiers()
    }

    /// The level after one feeding: `FEED_UNITS` more, and never past what
    /// the level can hold.
    pub fn fed(&self) -> (level: FuelLevel)
        ensures
            level.units() == if self.units() + FEED_UNITS <= u32::MAX {
                self.units() + FEED_UNITS
            } else {
                u32::MAX as int
            },
    {
        FuelLevel(self.0.saturating_add(FEED_UNITS))
    }
}

impl Default for FuelLevel {
    fn default() -> (level: FuelLevel)
        ensures
            level.units() == 0,
    {
        FuelLevel(0)
    }
}

/// Lays out the fuel display for `level`: the splash cap in the row of the
/// tier boundary and two solid fuel tiles in every row below it.
pub fn render_fuel_tank(level: &FuelLevel) -> (tiles: Vec<PlacedTile>)
    ensures
        tiles@ == fuel_tiles(level.units()),
{
    let row = level.splash_row();
    let mut tiles: Vec<PlacedTile> = Vec::new();
    tiles.push(PlacedTile::place(TileKind::Fuel, SPLASH_TILE_INDEX, TANK_RIGHT_COLUMN, row, None));
    tiles.push(PlacedTile::place(TileKind::Fuel, SPLASH_TILE_INDEX, TANK_LEFT_COLUMN, row, None));
    assert(tiles@ =~= splash_tiles(row as int));
    let ghost below = fuel_column_tiles(row as int);
    let mut y: usize = row + 1;
    while y < TANK_BOTTOM_ROW
        invariant
            TANK_TOP_ROW <= row < TANK_BOTTOM_ROW,
            row < y <= TANK_BOTTOM_ROW,
            below == fuel_column_tiles(row as int),
            tiles@ == splash_tiles(row as int) + below.take(2 * (y - (row + 1))),
        decreases TANK_BOTTOM_ROW - y,
    {
        let ghost done = 2 * (y - (row + 1));
        tiles.push(PlacedTile::place(TileKind::Fuel, FUEL_TILE_INDEX, TANK_RIGHT_COLUMN, y, None));
        tiles.push(PlacedTile::place(TileKind::Fuel, FUEL_TILE_INDEX, TANK_LEFT_COLUMN, y, None));
        assert(below.take(done + 2) =~= below.take(done).push(below[done]).push(below[done + 1]));
        y += 1;
    }
    assert(below.take(below.len() as int) =~= below);
    tiles
}

/// The number of full tiers never shrinks as the level grows.
pub proof fn filled_tiers_is_monotonic(lower: int, higher: int)
    requires
        0 <= lower <= higher,
    ensures
        filled_tiers(lower) <= filled_tiers(higher),
{
}

/// From the display ceiling upwards every tier is full.
pub proof fn filled_tiers_saturates(level: int)
    requires
        level >= DISPLAY_CEILING,
    ensures
        filled_tiers(level) == TIERS,
        empty_tiers(level) == 0,
{
}

/// Full and empty tiers always add up to the tank's five, and the splash
/// stays inside the tank.
pub proof fn tiers_partition_the_tank(level: int)
    requires
        0 <= level,
    ensures
        0 <= filled_tiers(level) <= TIERS,
        filled_tiers(level) + empty_tiers(level) == TIERS,
        TANK_TOP_ROW <= splash_row(level) < TANK_BOTTOM_ROW,
        fuel_tiles(level).len() == 2 * (filled_tiers(level) + 1),
{
}

/// Every tile of the fuel display is a fuel tile, so that a re-render can
/// remove exactly the display, and lies inside the tank: in one of its two
/// columns, from the splash down to the tank's bottom.
pub proof fn fuel_tiles_are_tagged(level: int, i: int)
    requires
        0 <= level,
        0 <= i < fuel_tiles(level).len(),
    ensures
        fuel_tiles(level)[i].kind == TileKind::Fuel,
        fuel_tiles(level)[i].wf(),
        fuel_tiles(level)[i].x == TANK_LEFT_COLUMN || fuel_tiles(level)[i].x == TANK_RIGHT_COLUMN,
        splash_row(level) <= fuel_tiles(level)[i].y < TANK_BOTTOM_ROW,
        fuel_tiles(level)[i].index == if i < 2 {
            SPLASH_TILE_INDEX
        } else {
            FUEL_TILE_INDEX
        },
{
}

/// The fuel display consists of well-formed fuel tiles only.
pub proof fn fuel_display_by_kind(level: int)
    requires
        0 <= level,
    ensures
        all_of(fuel_tiles(level), TileKind::Fuel),
        all_placed(fuel_tiles(level)),
{
    assert forall|i: int| 0 <= i < fuel_tiles(level).len() implies (#[trigger] fuel_tiles(
        level,
    )[i]).wf() by {
        fuel_tiles_are_tagged(level, i);
    }
    assert forall|i: int| 0 <= i < fuel_tiles(level).len() implies (#[trigger] fuel_tiles(
        level,
    )[i]).kind == TileKind::Fuel by {
        fuel_tiles_are_tagged(level, i);
    }
}

} // verus!

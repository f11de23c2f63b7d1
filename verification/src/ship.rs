//! The ship: the permanent structure of the level, placed from a fixed
//! layout table, with the fuel display inside its tank.

use rand::Rng;
use vstd::prelude::*;
use crate::fuel::{fuel_display_by_kind, fuel_tiles, render_fuel_tank, tank_column, FuelLevel};
use crate::kinds::{
    all_of, all_placed, lemma_all_of_excludes, lemma_all_of_kind, lemma_all_placed_add,
    lemma_kind_tests_add, lemma_none_of_add, lemma_none_of_kind, none_of, only, without,
};
use crate::tile::{placed, sheet_of, PlacedTile, Sheet, TileKind, SHIP_SHEET_TILES};

verus! {

/// Grid row of the platform that the player walks on.
pub const PLATFORM_ROW: usize = 12;

/// First grid column of the platform's run of deck tiles.
pub const DECK_FIRST_COLUMN: usize = 2;

/// Number of deck tiles in the platform's run.
pub const DECK_TILES: usize = 19;

/// Grid column of the exit ladder. The deck tile in this column is a gap:
/// it is drawn and blocks nothing.
pub const LADDER_COLUMN: usize = 11;

/// Palette index of the common deck tile.
pub const DECK_PLAIN_INDEX: usize = 88;

/// Palette index of the deck tile drawn for a successful roll.
pub const DECK_VARIANT_INDEX: usize = 104;

/// Number of rows that the side walls span, from the top row down.
pub const WALL_ROWS: usize = 12;

/// Number of rows that the tank's shell spans, from the top row down.
pub const TANK_SHELL_ROWS: usize = 5;

/// Number of tiles of the permanent structure that is placed before the
/// fuel display.
pub const STRUCTURE_TILES: usize = 73;

/// A blocking tile of the permanent structure.
pub open spec fn hull(index: usize, x: usize, y: usize) -> PlacedTile {
    placed(TileKind::Hull, index, x, y, None)
}

/// The two landing legs, foot first.
pub open spec fn legs() -> Seq<PlacedTile> {
    seq![hull(107, 1, 14), hull(75, 1, 13), hull(107, 21, 14), hull(75, 21, 13)]
}

/// Palette index of a deck tile, by its roll.
pub open spec fn deck_index(roll: bool) -> usize {
    if roll {
        DECK_VARIANT_INDEX
    } else {
        DECK_PLAIN_INDEX
    }
}

/// The deck tile in grid column `x`: blocking everywhere but under the ladder.
pub open spec fn deck_tile(roll: bool, x: usize) -> PlacedTile {
    placed(
        if x == LADDER_COLUMN {
            TileKind::Decor
        } else {
            TileKind::Hull
        },
        deck_index(roll),
        x,
        PLATFORM_ROW,
        None,
    )
}

/// The platform: its left end, then the run of deck tiles from left to
/// right, the `i`-th drawn by `rolls[i]`.
pub open spec fn platform(rolls: Seq<bool>) -> Seq<PlacedTile> {
    seq![hull(103, 1, PLATFORM_ROW)] + Seq::new(
        DECK_TILES as nat,
        |i: int| deck_tile(rolls[i], (DECK_FIRST_COLUMN + i) as usize),
    )
}

/// The exit ladder: three sensor tiles from the platform down.
pub open spec fn ladders() -> Seq<PlacedTile> {
    seq![
        placed(TileKind::Ladder, 11, LADDER_COLUMN, 12, None),
        placed(TileKind::Ladder, 43, LADDER_COLUMN, 13, None),
        placed(TileKind::Ladder, 43, LADDER_COLUMN, 14, None),
    ]
}

/// The platform's right end and the strut below the left wall.
pub open spec fn struts() -> Seq<PlacedTile> {
    seq![hull(106, 21, PLATFORM_ROW), hull(107, 3, 13)]
}

/// Grid column of the `i`-th wall tile of a row pair: left wall first.
pub open spec fn wall_column(i: int) -> usize {
    if i % 2 == 0 {
        2
    } else {
        20
    }
}

/// The two side walls, row by row from the top, left wall first.
pub open spec fn side_walls() -> Seq<PlacedTile> {
    Seq::new((2 * WALL_ROWS) as nat, |i: int| hull(58, wall_column(i), (i / 2) as usize))
}

/// The fitting at the top of the left wall.
pub open spec fn wall_fitting() -> Seq<PlacedTile> {
    seq![hull(8, 3, 0), hull(24, 3, 1), hull(40, 3, 2)]
}

/// The waste-disposal port, a sensor, and the cabinet above it. Both sprites
/// are drawn at twice the tile size.
pub open spec fn waste_port() -> Seq<PlacedTile> {
    seq![
        placed(TileKind::Toilet, 28, 3, 11, Some(2usize)),
        placed(TileKind::Decor, 12, 3, 9, Some(2usize)),
    ]
}

/// The planters on the platform.
pub open spec fn farm() -> Seq<PlacedTile> {
    seq![hull(17, 6, 11), hull(18, 7, 11), hull(19, 8, 11)]
}

/// The tank's shell, row by row from the top, and the tube exit below it.
pub open spec fn tank_shell() -> Seq<PlacedTile> {
    Seq::new((2 * TANK_SHELL_ROWS) as nat, |i: int| hull(75, tank_column(i), (i / 2) as usize))
        + seq![hull(79, 19, 5), hull(79, 18, 5)]
}

/// The port through which the tank is fed, a sensor.
pub open spec fn tank_input() -> Seq<PlacedTile> {
    seq![placed(TileKind::TankInput, 10, 17, 11, None)]
}

/// The permanent structure that is placed before the fuel display.
pub open spec fn structure(rolls: Seq<bool>) -> Seq<PlacedTile> {
    legs() + platform(rolls) + ladders() + struts() + side_walls() + wall_fitting() + waste_port()
        + farm() + tank_shell()
}

/// The whole ship for the deck rolls `rolls` and the fuel level `level`, in
/// the order in which it is placed.
pub open spec fn ship_tiles(rolls: Seq<bool>, level: int) -> Seq<PlacedTile> {
    structure(rolls) + fuel_tiles(level) + tank_input()
}

fn hull_tile(index: usize, x: usize, y: usize) -> (tile: PlacedTile)
    ensures
        tile == hull(index, x, y),
{
    PlacedTile::place(TileKind::Hull, index, x, y, None)
}

/// Palette index of a deck tile: the variant for a successful roll, the
/// common tile otherwise.
pub fn deck_tile_index(roll: bool) -> (index: usize)
    ensures
        index == deck_index(roll),
{
    if roll {
        DECK_VARIANT_INDEX
    } else {
        DECK_PLAIN_INDEX
    }
}

fn place_legs() -> (tiles: Vec<PlacedTile>)
    ensures
        tiles@ == legs(),
{
    let mut tiles: Vec<PlacedTile> = Vec::new();
    tiles.push(hull_tile(107, 1, 14));
    tiles.push(hull_tile(75, 1, 13));
    tiles.push(hull_tile(107, 21, 14));
    tiles.push(hull_tile(75, 21, 13));
    assert(tiles@ =~= legs());
    tiles
}

fn place_platform(rolls: &[bool; DECK_TILES]) -> (tiles: Vec<PlacedTile>)
    ensures
        tiles@ == platform(rolls@),
{
    let mut tiles: Vec<PlacedTile> = Vec::new();
    tiles.push(hull_tile(103, 1, PLATFORM_ROW));
    let ghost deck = Seq::new(
        DECK_TILES as nat,
        |i: int| deck_tile(rolls@[i], (DECK_FIRST_COLUMN + i) as usize),
    );
    let mut i: usize = 0;
    while i < DECK_TILES
        invariant
            i <= DECK_TILES,
            deck == Seq::new(
                DECK_TILES as nat,
                |i: int| deck_tile(rolls@[i], (DECK_FIRST_COLUMN + i) as usize),
            ),
            tiles@ == seq![hull(103, 1, PLATFORM_ROW)] + deck.take(i as int),
        decreases DECK_TILES - i,
    {
        let x = DECK_FIRST_COLUMN + i;
        let kind = if x == LADDER_COLUMN {
            TileKind::Decor
        } else {
            TileKind::Hull
        };
        tiles.push(PlacedTile::place(kind, deck_tile_index(rolls[i]), x, PLATFORM_ROW, None));
        assert(deck.take(i + 1) =~= deck.take(i as int).push(deck[i as int]));
        i += 1;
    }
    assert(deck.take(DECK_TILES as int) =~= deck);
    tiles
}

fn place_ladders() -> (tiles: Vec<PlacedTile>)
    ensures
        tiles@ == ladders(),
{
    let mut tiles: Vec<PlacedTile> = Vec::new();
    tiles.push(PlacedTile::place(TileKind::Ladder, 11, LADDER_COLUMN, 12, None));
    tiles.push(PlacedTile::place(TileKind::Ladder, 43, LADDER_COLUMN, 13, None));
    tiles.push(PlacedTile::place(TileKind::Ladder, 43, LADDER_COLUMN, 14, None));
    assert(tiles@ =~= ladders());
    tiles
}

fn place_struts() -> (tiles: Vec<PlacedTile>)
    ensures
        tiles@ == struts(),
{
    let mut tiles: Vec<PlacedTile> = Vec::new();
    tiles.push(hull_tile(106, 21, PLATFORM_ROW));
    tiles.push(hull_tile(107, 3, 13));
    assert(tiles@ =~= struts());
    tiles
}

fn place_side_walls() -> (tiles: Vec<PlacedTile>)
    ensures
        tiles@ == side_walls(),
{
    let mut tiles: Vec<PlacedTile> = Vec::new();
    let ghost walls = side_walls();
    let mut y: usize = 0;
    while y < WALL_ROWS
        invariant
            y <= WALL_ROWS,
            walls == side_walls(),
            tiles@ == walls.take(2 * y),
        decreases WALL_ROWS - y,
    {
        tiles.push(hull_tile(58, 2, y));
        tiles.push(hull_tile(58, 20, y));
        assert(walls.take(2 * y + 2) =~= walls.take(2 * y).push(walls[2 * y]).push(
            walls[2 * y + 1],
        ));
        y += 1;
    }
    assert(walls.take(walls.len() as int) =~= walls);
    tiles
}

fn place_wall_fitting() -> (tiles: Vec<PlacedTile>)
    ensures
        tiles@ == wall_fitting(),
{
    let mut tiles: Vec<PlacedTile> = Vec::new();
    tiles.push(hull_tile(8, 3, 0));
    tiles.push(hull_tile(24, 3, 1));
    tiles.push(hull_tile(40, 3, 2));
    assert(tiles@ =~= wall_fitting());
    tiles
}

fn place_waste_port() -> (tiles: Vec<PlacedTile>)
    ensures
        tiles@ == waste_port(),
{
    let mut tiles: Vec<PlacedTile> = Vec::new();
    tiles.push(PlacedTile::place(TileKind::Toilet, 28, 3, 11, Some(2)));
    tiles.push(PlacedTile::place(TileKind::Decor, 12, 3, 9, Some(2)));
    assert(tiles@ =~= waste_port());
    tiles
}

fn place_farm() -> (tiles: Vec<PlacedTile>)
    ensures
        tiles@ == farm(),
{
    let mut tiles: Vec<PlacedTile> = Vec::new();
    tiles.push(hull_tile(17, 6, 11));
    tiles.push(hull_tile(18, 7, 11));
    tiles.push(hull_tile(19, 8, 11));
    assert(tiles@ =~= farm());
    tiles
}

fn place_tank_shell() -> (tiles: Vec<PlacedTile>)
    ensures
        tiles@ == tank_shell(),
{
    let mut tiles: Vec<PlacedTile> = Vec::new();
    let ghost shell = Seq::new(
        (2 * TANK_SHELL_ROWS) as nat,
        |i: int| hull(75, tank_column(i), (i / 2) as usize),
    );
    let mut y: usize = 0;
    while y < TANK_SHELL_ROWS
        invariant
            y <= TANK_SHELL_ROWS,
            shell == Seq::new(
                (2 * TANK_SHELL_ROWS) as nat,
                |i: int| hull(75, tank_column(i), (i / 2) as usize),
            ),
            tiles@ == shell.take(2 * y),
        decreases TANK_SHELL_ROWS - y,
    {
        tiles.push(hull_tile(75, 19, y));
        tiles.push(hull_tile(75, 18, y));
        assert(shell.take(2 * y + 2) =~= shell.take(2 * y).push(shell[2 * y]).push(
            shell[2 * y + 1],
        ));
        y += 1;
    }
    assert(shell.take(shell.len() as int) =~= shell);
    tiles.push(hull_tile(79, 19, 5));
    tiles.push(hull_tile(79, 18, 5));
    assert(tiles@ =~= tank_shell());
    tiles
}

/// Places the whole ship for the given deck rolls: the permanent structure
/// from its layout table, the fuel display for `level`, and the tank-input
/// port.
pub fn build_ship_with(rolls: &[bool; DECK_TILES], level: &FuelLevel) -> (tiles: Vec<PlacedTile>)
    ensures
        tiles@ == ship_tiles(rolls@, level.units()),
{
    let mut tiles = place_legs();
    let mut part = place_platform(rolls);
    tiles.append(&mut part);
    let mut part = place_ladders();
    tiles.append(&mut part);
    let mut part = place_struts();
    tiles.append(&mut part);
    let mut part = place_side_walls();
    tiles.append(&mut part);
    let mut part = place_wall_fitting();
    tiles.append(&mut part);
    let mut part = place_waste_port();
    tiles.append(&mut part);
    let mut part = place_farm();
    tiles.append(&mut part);
    let mut part = place_tank_shell();
    tiles.append(&mut part);
    assert(tiles@ == structure(rolls@));
    let mut part = render_fuel_tank(level);
    tiles.append(&mut part);
    tiles.push(PlacedTile::place(TileKind::TankInput, 10, 17, 11, None));
    assert(tiles@ =~= ship_tiles(rolls@, level.units()));
    tiles
}

/// Draws one deck roll from the thread-local generator of `rand`, by
/// `rand::thread_rng()` and `Rng::gen_ratio(1, 3)`: `true` with a chance of
/// one in three. Nothing is claimed of the outcome. `gen_ratio` accepts
/// every ratio from 0 to 1 with a denominator other than 0; the generator
/// itself panics only if the operating system cannot seed it.
#[verifier::external_body]
fn roll_deck_variant() -> (roll: bool) {
    rand::thread_rng().gen_ratio(1, 3)
}

/// Draws the rolls for the platform's deck, one per deck tile, from left to
/// right.
pub fn roll_deck() -> (rolls: [bool; DECK_TILES])
    ensures
        rolls@.len() == DECK_TILES,
{
    let mut rolls: [bool; DECK_TILES] = [false; DECK_TILES];
    let mut i: usize = 0;
    while i < DECK_TILES
        invariant
            i <= DECK_TILES,
        decreases DECK_TILES - i,
    {
        rolls[i] = roll_deck_variant();
        i += 1;
    }
    rolls
}

/// Places the whole ship, drawing the deck's look by chance. Whatever the
/// rolls, the result is the ship of [`ship_tiles`] for some sequence of
/// rolls, one per deck tile.
pub fn build_ship(level: &FuelLevel) -> (tiles: Vec<PlacedTile>)
    ensures
        exists|rolls: Seq<bool>|
            rolls.len() == DECK_TILES && tiles@ == #[trigger] ship_tiles(rolls, level.units()),
{
    let rolls = roll_deck();
    build_ship_with(&rolls, level)
}

/// The permanent structure has the same number of tiles whatever the
/// rolls, and the whole ship has the fuel display and the tank-input port
/// on top of it.
pub proof fn ship_size(rolls: Seq<bool>, level: int)
    requires
        0 <= level,
    ensures
        structure(rolls).len() == STRUCTURE_TILES,
        ship_tiles(rolls, level).len() == STRUCTURE_TILES + fuel_tiles(level).len() + 1,
{
}

/// No tile of the permanent structure, nor the tank-input port, is a floor
/// tile or a fuel tile: no regeneration removes any of them.
pub proof fn ship_is_permanent(rolls: Seq<bool>)
    ensures
        none_of(structure(rolls), TileKind::Floor),
        none_of(structure(rolls), TileKind::Fuel),
        none_of(tank_input(), TileKind::Floor),
        none_of(tank_input(), TileKind::Fuel),
{
    assert forall|i: int| 0 <= i < structure(rolls).len() implies (#[trigger] structure(
        rolls,
    )[i]).kind != TileKind::Floor && structure(rolls)[i].kind != TileKind::Fuel by {
        lemma_structure_tile(rolls, i);
    }
}

/// The fuel tiles of a ship are its fuel display.
proof fn lemma_ship_fuel(hull: Seq<PlacedTile>, fuel: Seq<PlacedTile>, port: Seq<PlacedTile>)
    requires
        all_of(fuel, TileKind::Fuel),
        none_of(hull, TileKind::Fuel),
        none_of(port, TileKind::Fuel),
    ensures
        only(hull + fuel + port, TileKind::Fuel) == fuel,
        without(hull + fuel + port, TileKind::Fuel) == hull + port,
{
    let none = Seq::<PlacedTile>::empty();
    lemma_all_of_kind(fuel, TileKind::Fuel);
    lemma_none_of_kind(hull, TileKind::Fuel);
    lemma_none_of_kind(port, TileKind::Fuel);
    lemma_kind_tests_add(hull + fuel, port, TileKind::Fuel);
    lemma_kind_tests_add(hull, fuel, TileKind::Fuel);
    assert(none + fuel + none =~= fuel);
    assert(hull + none + port =~= hull + port);
}

/// The ship has no floor tile: a reload of the floor leaves it whole.
pub proof fn ship_has_no_floor(rolls: Seq<bool>, level: int)
    requires
        0 <= level,
    ensures
        none_of(ship_tiles(rolls, level), TileKind::Floor),
{
    ship_is_permanent(rolls);
    fuel_display_by_kind(level);
    lemma_all_of_excludes(fuel_tiles(level), TileKind::Fuel, TileKind::Floor);
    lemma_none_of_add(structure(rolls), fuel_tiles(level), TileKind::Floor);
    lemma_none_of_add(structure(rolls) + fuel_tiles(level), tank_input(), TileKind::Floor);
}

/// The fuel tiles of the ship are exactly the fuel display, and without
/// them the permanent structure and the tank-input port are left.
pub proof fn ship_fuel_is_display(rolls: Seq<bool>, level: int)
    requires
        0 <= level,
    ensures
        only(ship_tiles(rolls, level), TileKind::Fuel) == fuel_tiles(level),
        without(ship_tiles(rolls, level), TileKind::Fuel) == structure(rolls) + tank_input(),
{
    ship_is_permanent(rolls);
    fuel_display_by_kind(level);
    lemma_ship_fuel(structure(rolls), fuel_tiles(level), tank_input());
}

/// Whether `tile` is a tile that the layout table can hold: well-formed, of
/// a permanent kind, with a palette index on the ship's sheet.
pub open spec fn fits_ship(tile: PlacedTile) -> bool {
    &&& tile.wf()
    &&& tile.kind != TileKind::Floor
    &&& tile.kind != TileKind::Fuel
    &&& tile.index < SHIP_SHEET_TILES
}

/// Every tile of the permanent structure fits the ship, part by part.
proof fn lemma_structure_tile(rolls: Seq<bool>, i: int)
    requires
        0 <= i < structure(rolls).len(),
    ensures
        fits_ship(structure(rolls)[i]),
{
    let a = legs();
    let b = a + platform(rolls);
    let c = b + ladders();
    let d = c + struts();
    let e = d + side_walls();
    let f = e + wall_fitting();
    let g = f + waste_port();
    let h = g + farm();
    assert(structure(rolls) == h + tank_shell());
    if i < a.len() {
    } else if i < b.len() {
        assert(b[i] == platform(rolls)[i - a.len()]);
    } else if i < c.len() {
        assert(c[i] == ladders()[i - b.len()]);
    } else if i < d.len() {
        assert(d[i] == struts()[i - c.len()]);
    } else if i < e.len() {
        assert(e[i] == side_walls()[i - d.len()]);
    } else if i < f.len() {
        assert(f[i] == wall_fitting()[i - e.len()]);
    } else if i < g.len() {
        assert(g[i] == waste_port()[i - f.len()]);
    } else if i < h.len() {
        assert(h[i] == farm()[i - g.len()]);
    } else {
        assert(structure(rolls)[i] == tank_shell()[i - h.len()]);
    }
}

/// Every tile of the permanent structure is well-formed, and its palette
/// index lies on the ship's sheet.
pub proof fn structure_fits_sheet(rolls: Seq<bool>, i: int)
    requires
        0 <= i < structure(rolls).len(),
    ensures
        structure(rolls)[i].wf(),
        structure(rolls)[i].index < SHIP_SHEET_TILES,
        sheet_of(structure(rolls)[i].kind) == Sheet::Ship,
{
    lemma_structure_tile(rolls, i);
}

/// Every tile of the ship is well-formed.
pub proof fn ship_is_placed(rolls: Seq<bool>, level: int)
    requires
        0 <= level,
    ensures
        all_placed(structure(rolls)),
        all_placed(ship_tiles(rolls, level)),
{
    assert forall|i: int| 0 <= i < structure(rolls).len() implies (#[trigger] structure(
        rolls,
    )[i]).wf() by {
        lemma_structure_tile(rolls, i);
    }
    fuel_display_by_kind(level);
    lemma_all_placed_add(structure(rolls), fuel_tiles(level));
    lemma_all_placed_add(structure(rolls) + fuel_tiles(level), tank_input());
}

/// Chance decides the look of the deck and nothing else: two ships for one
/// fuel level have the same number of tiles, and tile by tile the same
/// kind, cell, position and collider.
pub proof fn rolls_change_looks_only(first: Seq<bool>, second: Seq<bool>, level: int, i: int)
    requires
        0 <= level,
        0 <= i < ship_tiles(first, level).len(),
    ensures
        ship_tiles(first, level).len() == ship_tiles(second, level).len(),
        ship_tiles(first, level)[i].kind == ship_tiles(second, level)[i].kind,
        ship_tiles(first, level)[i].x == ship_tiles(second, level)[i].x,
        ship_tiles(first, level)[i].y == ship_tiles(second, level)[i].y,
        ship_tiles(first, level)[i].scale == ship_tiles(second, level)[i].scale,
        ship_tiles(first, level)[i].position == ship_tiles(second, level)[i].position,
        ship_tiles(first, level)[i].collider == ship_tiles(second, level)[i].collider,
{
    let head = legs();
    let tail = ladders() + struts() + side_walls() + wall_fitting() + waste_port() + farm()
        + tank_shell() + fuel_tiles(level) + tank_input();
    assert(ship_tiles(first, level) =~= head + platform(first) + tail);
    assert(ship_tiles(second, level) =~= head + platform(second) + tail);
}

/// The deck blocks motion everywhere but in the ladder's column, where the
/// deck tile has no collider and the ladder's sensor takes its place.
pub proof fn deck_gap_is_under_ladder(rolls: Seq<bool>, i: int)
    requires
        0 <= i < DECK_TILES,
    ensures
        platform(rolls)[i + 1].x == DECK_FIRST_COLUMN + i,
        platform(rolls)[i + 1].y == PLATFORM_ROW,
        platform(rolls)[i + 1].collider is None <==> DECK_FIRST_COLUMN + i == LADDER_COLUMN,
        ladders()[0].x == LADDER_COLUMN && ladders()[0].y == PLATFORM_ROW,
        ladders()[0].collider matches Some(c) && c.sensor,
{
}

} // verus!

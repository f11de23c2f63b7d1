//! The level as a set of placed tiles, and its regeneration when the floor
//! image or the fuel level changes.

use vstd::prelude::*;
use crate::fuel::{fuel_display_by_kind, fuel_tiles, render_fuel_tank, FuelLevel};
use crate::grid::{floor_layer, floor_layer_by_kind, generate_map};
use crate::kinds::{
    all_of, all_placed, is_not, lemma_all_of_excludes, lemma_all_of_kind, lemma_all_placed_add,
    lemma_all_placed_without, lemma_kind_tests_add, lemma_none_of_kind,
    lemma_without_keeps_other_kind, lemma_without_twice, none_of, only, without,
};
use crate::ship::{
    build_ship_with, roll_deck, ship_fuel_is_display, ship_has_no_floor, ship_is_placed,
    ship_tiles, structure, tank_input, DECK_TILES,
};
use crate::state::GameState;
use crate::tile::{PlacedTile, TileKind};

verus! {

/// The tiles of a level, in the order in which they were placed.
#[derive(Debug, PartialEq, Eq)]
pub struct Level {
    tiles: Vec<PlacedTile>,
}

/// What the world has to do after a regeneration: remove every tile of kind
/// `despawn`, then add the tiles of `spawn`.
#[derive(Debug, PartialEq, Eq)]
pub struct Regeneration {
    pub despawn: TileKind,
    pub spawn: Vec<PlacedTile>,
}

/// Something that makes part of the level stale.
pub enum Trigger<'a> {
    /// The floor image was modified; this is its new pixel buffer.
    FloorImageModified(&'a [u8]),
    /// The fuel level changed; this is the new level.
    FuelChanged(FuelLevel),
}

/// The level as it is entered: the floor of the image, then the ship.
pub open spec fn entered(data: Seq<u8>, rolls: Seq<bool>, level: int) -> Seq<PlacedTile> {
    floor_layer(data) + ship_tiles(rolls, level)
}

/// The level after the floor image changed to `data`: every floor tile is
/// gone, the floor of the new image is added.
pub open spec fn after_floor_reload(tiles: Seq<PlacedTile>, data: Seq<u8>) -> Seq<PlacedTile> {
    without(tiles, TileKind::Floor) + floor_layer(data)
}

/// The level after the fuel level changed to `level`: every fuel tile is
/// gone, the display for the new level is added.
pub open spec fn after_fuel_update(tiles: Seq<PlacedTile>, level: int) -> Seq<PlacedTile> {
    without(tiles, TileKind::Fuel) + fuel_tiles(level)
}

/// Whether `flags` holds a set flag.
pub open spec fn some_set(flags: Seq<bool>) -> bool {
    exists|i: int| 0 <= i < flags.len() && flags[i]
}

impl View for Level {
    type V = Seq<PlacedTile>;

    closed spec fn view(&self) -> Seq<PlacedTile> {
        self.tiles@
    }
}

/// Copies the tiles that are not of kind `kind`, in their order.
fn retain_others(tiles: &Vec<PlacedTile>, kind: TileKind) -> (kept: Vec<PlacedTile>)
    ensures
        kept@ == without(tiles@, kind),
{
    let mut kept: Vec<PlacedTile> = Vec::new();
    let mut i: usize = 0;
    proof {
        assert(tiles@.take(0) =~= Seq::<PlacedTile>::empty());
        assert(Seq::<PlacedTile>::empty().filter(is_not(kind)) =~= Seq::<PlacedTile>::empty()) by {
            reveal(Seq::filter);
        }
    }
    while i < tiles.len()
        invariant
            i <= tiles.len(),
            kept@ == tiles@.take(i as int).filter(is_not(kind)),
        decreases tiles.len() - i,
    {
        proof {
            assert(tiles@.take(i + 1) =~= tiles@.take(i as int).push(tiles@[i as int]));
            tiles@.take(i as int).lemma_filter_push(tiles@[i as int], is_not(kind));
        }
        let tile = tiles[i];
        if tile.kind != kind {
            kept.push(tile);
        }
        i += 1;
    }
    assert(tiles@.take(tiles@.len() as int) =~= tiles@);
    kept
}

impl Level {
    /// Every tile of a level is well-formed at all times: it sits where the
    /// grid-to-world map puts its cell and carries the collider of its kind.
    #[verifier::type_invariant]
    spec fn tiles_placed(&self) -> bool {
        all_placed(self.tiles@)
    }

    /// Builds the level for the floor image `data`, the deck rolls `rolls`
    /// and the fuel level `level`.
    pub fn assemble(data: &[u8], rolls: &[bool; DECK_TILES], level: &FuelLevel) -> (built: Level)
        ensures
            built@ == entered(data@, rolls@, level.units()),
            all_placed(built@),
    {
        let mut tiles = generate_map(data);
        let mut ship = build_ship_with(rolls, level);
        tiles.append(&mut ship);
        proof {
            entered_level_is_placed(data@, rolls@, level.units());
        }
        Level { tiles }
    }

    /// Builds the level on entering play, drawing the deck's look by chance.
    /// Whatever the rolls, the result is the level of [`entered`] for some
    /// sequence of rolls, one per deck tile.
    pub fn enter(data: &[u8], level: &FuelLevel) -> (built: Level)
        ensures
            exists|rolls: Seq<bool>|
                rolls.len() == DECK_TILES && built@ == #[trigger] entered(
                    data@,
                    rolls,
                    level.units(),
                ),
            all_placed(built@),
    {
        let rolls = roll_deck();
        Level::assemble(data, &rolls, level)
    }

    /// The tiles of the level, each of them well-formed.
    pub fn tiles(&self) -> (tiles: &Vec<PlacedTile>)
        ensures
            tiles@ == self@,
            all_placed(tiles@),
    {
        proof {
            use_type_invariant(self);
        }
        &self.tiles
    }

    /// Rebuilds the floor from the modified floor image: removes every floor
    /// tile and places the floor of `data`.
    pub fn reload_floor(&mut self, data: &[u8]) -> (regeneration: Regeneration)
        ensures
            final(self)@ == after_floor_reload(old(self)@, data@),
            regeneration.despawn == TileKind::Floor,
            regeneration.spawn@ == floor_layer(data@),
            all_placed(final(self)@),
    {
        proof {
            use_type_invariant(&*self);
            floor_reload_keeps_tiles_placed(self@, data@);
        }
        let mut kept = retain_others(&self.tiles, TileKind::Floor);
        let spawn = generate_map(data);
        let mut added = copy_tiles(&spawn);
        kept.append(&mut added);
        self.tiles = kept;
        Regeneration { despawn: TileKind::Floor, spawn }
    }

    /// Rebuilds the fuel display for the changed level: removes every fuel
    /// tile and places the display for `level`.
    pub fn update_fuel(&mut self, level: &FuelLevel) -> (regeneration: Regeneration)
        ensures
            final(self)@ == after_fuel_update(old(self)@, level.units()),
            regeneration.despawn == TileKind::Fuel,
            regeneration.spawn@ == fuel_tiles(level.units()),
            all_placed(final(self)@),
    {
        proof {
            use_type_invariant(&*self);
            fuel_update_keeps_tiles_placed(self@, level.units());
        }
        let mut kept = retain_others(&self.tiles, TileKind::Fuel);
        let spawn = render_fuel_tank(level);
        let mut added = copy_tiles(&spawn);
        kept.append(&mut added);
        self.tiles = kept;
        Regeneration { despawn: TileKind::Fuel, spawn }
    }

    /// Regenerates what `trigger` made stale.
    pub fn regenerate(&mut self, trigger: Trigger<'_>) -> (regeneration: Regeneration)
        ensures
            final(self)@ == match trigger {
                Trigger::FloorImageModified(data) => after_floor_reload(old(self)@, data@),
                Trigger::FuelChanged(level) => after_fuel_update(old(self)@, level.units()),
            },
            regeneration.despawn == match trigger {
                Trigger::FloorImageModified(_) => TileKind::Floor,
                Trigger::FuelChanged(_) => TileKind::Fuel,
            },
            regeneration.spawn@ == match trigger {
                Trigger::FloorImageModified(data) => floor_layer(data@),
                Trigger::FuelChanged(level) => fuel_tiles(level.units()),
            },
            all_placed(final(self)@),
    {
        match trigger {
            Trigger::FloorImageModified(data) => self.reload_floor(data),
            Trigger::FuelChanged(level) => self.update_fuel(&level),
        }
    }

    /// Reacts to `trigger` in the game state `state`. Regeneration belongs
    /// to the level: outside of play nothing happens and nothing is
    /// returned; in play the level regenerates what the trigger made stale.
    pub fn react(&mut self, state: GameState, trigger: Trigger<'_>) -> (regeneration: Option<
        Regeneration,
    >)
        ensures
            regeneration is Some <==> state == GameState::Playing,
            state != GameState::Playing ==> final(self)@ == old(self)@,
            state == GameState::Playing ==> final(self)@ == match trigger {
                Trigger::FloorImageModified(data) => after_floor_reload(old(self)@, data@),
                Trigger::FuelChanged(level) => after_fuel_update(old(self)@, level.units()),
            },
            regeneration matches Some(r) ==> r.despawn == match trigger {
                Trigger::FloorImageModified(_) => TileKind::Floor,
                Trigger::FuelChanged(_) => TileKind::Fuel,
            } && r.spawn@ == match trigger {
                Trigger::FloorImageModified(data) => floor_layer(data@),
                Trigger::FuelChanged(level) => fuel_tiles(level.units()),
            },
            all_placed(final(self)@),
    {
        if state.is_playing() {
            Some(self.regenerate(trigger))
        } else {
            proof {
                use_type_invariant(&*self);
            }
            None
        }
    }
}

/// Copies a list of tiles.
fn copy_tiles(tiles: &Vec<PlacedTile>) -> (copy: Vec<PlacedTile>)
    ensures
        copy@ == tiles@,
{
    let mut copy: Vec<PlacedTile> = Vec::new();
    let mut i: usize = 0;
    while i < tiles.len()
        invariant
            i <= tiles.len(),
            copy@ == tiles@.take(i as int),
        decreases tiles.len() - i,
    {
        copy.push(tiles[i]);
        assert(tiles@.take(i + 1) =~= tiles@.take(i as int).push(tiles@[i as int]));
        i += 1;
    }
    assert(tiles@.take(tiles@.len() as int) =~= tiles@);
    copy
}

/// Tells whether a regeneration is due, given one flag per event of the
/// tick: however many events ask for it, it is due once.
pub fn regeneration_due(flags: &[bool]) -> (due: bool)
    ensures
        due == some_set(flags@),
{
    let mut i: usize = 0;
    while i < flags.len()
        invariant
            i <= flags.len(),
            forall|j: int| 0 <= j < i ==> !flags@[j],
        decreases flags.len() - i,
    {
        if flags[i] {
            return true;
        }
        i += 1;
    }
    false
}

/// After a regeneration the tiles of the regenerated kind are the fresh
/// ones.
proof fn lemma_replace_only(tiles: Seq<PlacedTile>, kind: TileKind, fresh: Seq<PlacedTile>)
    requires
        all_of(fresh, kind),
    ensures
        only(without(tiles, kind) + fresh, kind) == fresh,
{
    let kept = without(tiles, kind);
    lemma_without_twice(tiles, kind);
    lemma_kind_tests_add(kept, fresh, kind);
    lemma_all_of_kind(fresh, kind);
    assert(Seq::<PlacedTile>::empty() + fresh =~= fresh);
}

/// After a regeneration the tiles of the other kinds are those from before.
proof fn lemma_replace_without(tiles: Seq<PlacedTile>, kind: TileKind, fresh: Seq<PlacedTile>)
    requires
        all_of(fresh, kind),
    ensures
        without(without(tiles, kind) + fresh, kind) == without(tiles, kind),
{
    let kept = without(tiles, kind);
    lemma_without_twice(tiles, kind);
    lemma_kind_tests_add(kept, fresh, kind);
    lemma_all_of_kind(fresh, kind);
    assert(kept + Seq::<PlacedTile>::empty() =~= kept);
}

/// A regeneration of one kind leaves the tiles of every other kind as they
/// were.
proof fn lemma_replace_keeps_other_kind(
    tiles: Seq<PlacedTile>,
    kind: TileKind,
    fresh: Seq<PlacedTile>,
    other: TileKind,
)
    requires
        all_of(fresh, kind),
        other != kind,
    ensures
        only(without(tiles, kind) + fresh, other) == only(tiles, other),
{
    let kept = without(tiles, kind);
    lemma_kind_tests_add(kept, fresh, other);
    lemma_all_of_excludes(fresh, kind, other);
    lemma_none_of_kind(fresh, other);
    lemma_without_keeps_other_kind(tiles, kind, other);
    assert(only(tiles, other) + Seq::<PlacedTile>::empty() =~= only(tiles, other));
}

/// Rendering the fuel display twice at one level gives the level that
/// rendering it once gives, and its fuel tiles are exactly the display of
/// that level.
pub proof fn fuel_update_is_idempotent(tiles: Seq<PlacedTile>, level: int)
    requires
        0 <= level,
    ensures
        after_fuel_update(after_fuel_update(tiles, level), level) == after_fuel_update(
            tiles,
            level,
        ),
        only(after_fuel_update(tiles, level), TileKind::Fuel) == fuel_tiles(level),
{
    fuel_display_by_kind(level);
    lemma_replace_only(tiles, TileKind::Fuel, fuel_tiles(level));
    lemma_replace_without(tiles, TileKind::Fuel, fuel_tiles(level));
}

/// Reloading the floor from one image twice gives the level that reloading
/// it once gives, and its floor tiles are exactly the floor of that image.
pub proof fn floor_reload_is_idempotent(tiles: Seq<PlacedTile>, data: Seq<u8>)
    ensures
        after_floor_reload(after_floor_reload(tiles, data), data) == after_floor_reload(
            tiles,
            data,
        ),
        only(after_floor_reload(tiles, data), TileKind::Floor) == floor_layer(data),
{
    floor_layer_by_kind(data);
    lemma_replace_only(tiles, TileKind::Floor, floor_layer(data));
    lemma_replace_without(tiles, TileKind::Floor, floor_layer(data));
}

/// A reload of the floor touches floor tiles only: the tiles of every other
/// kind, ladders, sensors and the fuel display among them, stay as they
/// were, in their order.
pub proof fn floor_reload_preserves_others(tiles: Seq<PlacedTile>, data: Seq<u8>, kind: TileKind)
    requires
        kind != TileKind::Floor,
    ensures
        only(after_floor_reload(tiles, data), kind) == only(tiles, kind),
        without(after_floor_reload(tiles, data), TileKind::Floor) == without(
            tiles,
            TileKind::Floor,
        ),
{
    floor_layer_by_kind(data);
    lemma_replace_without(tiles, TileKind::Floor, floor_layer(data));
    lemma_replace_keeps_other_kind(tiles, TileKind::Floor, floor_layer(data), kind);
}

/// A re-render of the fuel display touches fuel tiles only: the tiles of
/// every other kind stay as they were, in their order.
pub proof fn fuel_update_preserves_others(tiles: Seq<PlacedTile>, level: int, kind: TileKind)
    requires
        0 <= level,
        kind != TileKind::Fuel,
    ensures
        only(after_fuel_update(tiles, level), kind) == only(tiles, kind),
        without(after_fuel_update(tiles, level), TileKind::Fuel) == without(tiles, TileKind::Fuel),
{
    fuel_display_by_kind(level);
    lemma_replace_without(tiles, TileKind::Fuel, fuel_tiles(level));
    lemma_replace_keeps_other_kind(tiles, TileKind::Fuel, fuel_tiles(level), kind);
}

/// A level of a floor and a ship, filtered for floor tiles.
proof fn lemma_level_floor(floor: Seq<PlacedTile>, ship: Seq<PlacedTile>)
    requires
        all_of(floor, TileKind::Floor),
        none_of(ship, TileKind::Floor),
    ensures
        only(floor + ship, TileKind::Floor) == floor,
        without(floor + ship, TileKind::Floor) == ship,
{
    let none = Seq::<PlacedTile>::empty();
    lemma_all_of_kind(floor, TileKind::Floor);
    lemma_none_of_kind(ship, TileKind::Floor);
    lemma_kind_tests_add(floor, ship, TileKind::Floor);
    assert(floor + none =~= floor);
    assert(none + ship =~= ship);
}

/// A level of a floor and a ship, filtered for fuel tiles.
proof fn lemma_level_fuel(
    floor: Seq<PlacedTile>,
    ship: Seq<PlacedTile>,
    fuel: Seq<PlacedTile>,
    rest: Seq<PlacedTile>,
)
    requires
        all_of(floor, TileKind::Floor),
        only(ship, TileKind::Fuel) == fuel,
        without(ship, TileKind::Fuel) == rest,
    ensures
        only(floor + ship, TileKind::Fuel) == fuel,
        without(floor + ship, TileKind::Fuel) == floor + rest,
{
    let none = Seq::<PlacedTile>::empty();
    lemma_all_of_excludes(floor, TileKind::Floor, TileKind::Fuel);
    lemma_none_of_kind(floor, TileKind::Fuel);
    lemma_kind_tests_add(floor, ship, TileKind::Fuel);
    assert(none + fuel =~= fuel);
}

/// In a level as it is entered, the floor tiles are the floor of the image
/// and everything else is the ship.
pub proof fn entered_level_floor(data: Seq<u8>, rolls: Seq<bool>, level: int)
    requires
        0 <= level,
    ensures
        only(entered(data, rolls, level), TileKind::Floor) == floor_layer(data),
        without(entered(data, rolls, level), TileKind::Floor) == ship_tiles(rolls, level),
{
    floor_layer_by_kind(data);
    ship_has_no_floor(rolls, level);
    lemma_level_floor(floor_layer(data), ship_tiles(rolls, level));
}

/// In a level as it is entered, the fuel tiles are the display of the fuel
/// level, and everything else is the floor, the permanent structure and the
/// tank-input port.
pub proof fn entered_level_fuel(data: Seq<u8>, rolls: Seq<bool>, level: int)
    requires
        0 <= level,
    ensures
        only(entered(data, rolls, level), TileKind::Fuel) == fuel_tiles(level),
        without(entered(data, rolls, level), TileKind::Fuel) == floor_layer(data) + (structure(
            rolls,
        ) + tank_input()),
{
    floor_layer_by_kind(data);
    ship_fuel_is_display(rolls, level);
    lemma_level_fuel(
        floor_layer(data),
        ship_tiles(rolls, level),
        fuel_tiles(level),
        structure(rolls) + tank_input(),
    );
}

/// A reload of the floor in a level as it was entered leaves the ship as it
/// was placed, followed by the floor of the new image.
pub proof fn floor_reload_of_entered_level(
    data: Seq<u8>,
    rolls: Seq<bool>,
    level: int,
    new_data: Seq<u8>,
)
    requires
        0 <= level,
    ensures
        after_floor_reload(entered(data, rolls, level), new_data) == ship_tiles(rolls, level)
            + floor_layer(new_data),
{
    let before = entered(data, rolls, level);
    assert(without(before, TileKind::Floor) == ship_tiles(rolls, level)) by {
        entered_level_floor(data, rolls, level);
    }
}

/// A re-render of the fuel in a level as it was entered leaves the floor,
/// the permanent structure and the tank-input port as they were placed,
/// followed by the display of the new level.
pub proof fn fuel_update_of_entered_level(
    data: Seq<u8>,
    rolls: Seq<bool>,
    level: int,
    new_level: int,
)
    requires
        0 <= level,
    ensures
        after_fuel_update(entered(data, rolls, level), new_level) == floor_layer(data) + (structure(
            rolls,
        ) + tank_input()) + fuel_tiles(new_level),
{
    let before = entered(data, rolls, level);
    let rest = floor_layer(data) + (structure(rolls) + tank_input());
    assert(without(before, TileKind::Fuel) == rest) by {
        entered_level_fuel(data, rolls, level);
    }
}

/// A level as it is entered holds well-formed tiles only.
pub proof fn entered_level_is_placed(data: Seq<u8>, rolls: Seq<bool>, level: int)
    requires
        0 <= level,
    ensures
        all_placed(entered(data, rolls, level)),
{
    floor_layer_by_kind(data);
    ship_is_placed(rolls, level);
    lemma_all_placed_add(floor_layer(data), ship_tiles(rolls, level));
}

/// A reload of the floor keeps a level well-formed.
pub proof fn floor_reload_keeps_tiles_placed(tiles: Seq<PlacedTile>, data: Seq<u8>)
    requires
        all_placed(tiles),
    ensures
        all_placed(after_floor_reload(tiles, data)),
{
    floor_layer_by_kind(data);
    lemma_all_placed_without(tiles, TileKind::Floor);
    lemma_all_placed_add(without(tiles, TileKind::Floor), floor_layer(data));
}

/// A re-render of the fuel keeps a level well-formed.
pub proof fn fuel_update_keeps_tiles_placed(tiles: Seq<PlacedTile>, level: int)
    requires
        all_placed(tiles),
        0 <= level,
    ensures
        all_placed(after_fuel_update(tiles, level)),
{
    fuel_display_by_kind(level);
    lemma_all_placed_without(tiles, TileKind::Fuel);
    lemma_all_placed_add(without(tiles, TileKind::Fuel), fuel_tiles(level));
}

} // verus!

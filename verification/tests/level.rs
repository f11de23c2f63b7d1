use recycles::fuel::{render_fuel_tank, FuelLevel};
use recycles::grid::generate_map;
use recycles::level::{regeneration_due, Level, Trigger};
use recycles::ship::build_ship_with;
use recycles::state::GameState;
use recycles::tile::{PlacedTile, TileKind};

fn image(solid: &[usize], cells: usize) -> Vec<u8> {
    let mut data = vec![0u8; cells * 4];
    for i in solid {
        data[4 * i] = 1;
    }
    data
}

fn of_kind(level: &Level, kind: TileKind) -> Vec<PlacedTile> {
    level.tiles().iter().filter(|t| t.kind == kind).copied().collect()
}

fn not_of_kind(level: &Level, kind: TileKind) -> Vec<PlacedTile> {
    level.tiles().iter().filter(|t| t.kind != kind).copied().collect()
}

const OTHER_KINDS: [TileKind; 5] = [
    TileKind::Hull,
    TileKind::Decor,
    TileKind::Ladder,
    TileKind::TankInput,
    TileKind::Toilet,
];

#[test]
fn entered_level_is_the_floor_followed_by_the_ship() {
    let data = image(&[0, 24, 50], 23 * 4);
    let rolls = [false; 19];
    let level = Level::assemble(&data, &rolls, &FuelLevel(20));
    let mut expected = generate_map(&data);
    assert_eq!(expected.len(), 3);
    expected.extend(build_ship_with(&rolls, &FuelLevel(20)));
    assert_eq!(level.tiles(), &expected);
}

#[test]
fn entering_by_chance_gives_a_level_for_some_rolls() {
    let data = image(&[5, 6, 7], 23 * 2);
    let level = Level::enter(&data, &FuelLevel(0));
    let tiles = level.tiles();
    assert_eq!(tiles.len(), 3 + 76);
    let mut rolls = [false; 19];
    for i in 0..19usize {
        rolls[i] = tiles[3 + 5 + i].index == 104;
    }
    assert_eq!(level, Level::assemble(&data, &rolls, &FuelLevel(0)));
}

#[test]
fn floor_reload_replaces_the_floor_only() {
    let old = image(&[0, 24, 50], 23 * 4);
    let new = image(&[1, 2, 30, 70], 23 * 4);
    let rolls = [true; 19];
    let mut level = Level::assemble(&old, &rolls, &FuelLevel(55));
    let others = not_of_kind(&level, TileKind::Floor);
    let regeneration = level.reload_floor(&new);
    assert_eq!(regeneration.despawn, TileKind::Floor);
    assert_eq!(regeneration.spawn, generate_map(&new));
    assert_eq!(of_kind(&level, TileKind::Floor), generate_map(&new));
    assert_eq!(not_of_kind(&level, TileKind::Floor), others);
    let mut expected = build_ship_with(&rolls, &FuelLevel(55));
    expected.extend(generate_map(&new));
    assert_eq!(level.tiles(), &expected);
}

#[test]
fn floor_reload_never_removes_ladders_sensors_or_fuel() {
    let mut level = Level::assemble(&image(&[3], 46), &[false; 19], &FuelLevel(80));
    let ladders = of_kind(&level, TileKind::Ladder);
    let inputs = of_kind(&level, TileKind::TankInput);
    let ports = of_kind(&level, TileKind::Toilet);
    let fuel = of_kind(&level, TileKind::Fuel);
    assert_eq!((ladders.len(), inputs.len(), ports.len(), fuel.len()), (3, 1, 1, 10));
    for solid in [vec![], vec![0usize], vec![1, 2, 3, 4, 5]] {
        level.reload_floor(&image(&solid, 46));
        assert_eq!(of_kind(&level, TileKind::Ladder), ladders);
        assert_eq!(of_kind(&level, TileKind::TankInput), inputs);
        assert_eq!(of_kind(&level, TileKind::Toilet), ports);
        assert_eq!(of_kind(&level, TileKind::Fuel), fuel);
        assert_eq!(of_kind(&level, TileKind::Floor).len(), solid.len());
    }
}

#[test]
fn floor_reload_is_idempotent() {
    let new = image(&[1, 2, 30, 70], 23 * 4);
    let mut once = Level::assemble(&image(&[0], 23), &[false; 19], &FuelLevel(10));
    let mut twice = Level::assemble(&image(&[0], 23), &[false; 19], &FuelLevel(10));
    once.reload_floor(&new);
    twice.reload_floor(&new);
    twice.reload_floor(&new);
    assert_eq!(once, twice);
}

#[test]
fn fuel_update_replaces_the_display_only() {
    let data = image(&[0, 24, 50], 23 * 4);
    let mut level = Level::assemble(&data, &[false; 19], &FuelLevel(0));
    let others = not_of_kind(&level, TileKind::Fuel);
    let regeneration = level.update_fuel(&FuelLevel(55));
    assert_eq!(regeneration.despawn, TileKind::Fuel);
    assert_eq!(regeneration.spawn, render_fuel_tank(&FuelLevel(55)));
    assert_eq!(of_kind(&level, TileKind::Fuel), render_fuel_tank(&FuelLevel(55)));
    assert_eq!(not_of_kind(&level, TileKind::Fuel), others);
    assert_eq!(level.tiles().len(), 3 + 73 + 1 + 6);
    for kind in OTHER_KINDS {
        assert!(!of_kind(&level, kind).is_empty());
    }
}

#[test]
fn fuel_update_is_idempotent() {
    for fuel in [0u32, 10, 55, 100, 400] {
        let mut once = Level::assemble(&image(&[0], 23), &[true; 19], &FuelLevel(30));
        let mut twice = Level::assemble(&image(&[0], 23), &[true; 19], &FuelLevel(30));
        once.update_fuel(&FuelLevel(fuel));
        let first = twice.update_fuel(&FuelLevel(fuel));
        let second = twice.update_fuel(&FuelLevel(fuel));
        assert_eq!(first, second);
        assert_eq!(once, twice);
    }
}

#[test]
fn regenerate_dispatches_on_the_trigger() {
    let data = image(&[0], 23);
    let new = image(&[4, 5], 23);
    let mut by_trigger = Level::assemble(&data, &[false; 19], &FuelLevel(0));
    let mut by_method = Level::assemble(&data, &[false; 19], &FuelLevel(0));
    let a = by_trigger.regenerate(Trigger::FloorImageModified(&new));
    let b = by_method.reload_floor(&new);
    assert_eq!(a, b);
    assert_eq!(by_trigger, by_method);
    let a = by_trigger.regenerate(Trigger::FuelChanged(FuelLevel(60)));
    let b = by_method.update_fuel(&FuelLevel(60));
    assert_eq!(a, b);
    assert_eq!(by_trigger, by_method);
}

#[test]
fn nothing_regenerates_outside_of_play() {
    let data = image(&[0], 23);
    let new = image(&[4, 5], 23);
    for state in [GameState::Loading, GameState::Menu, GameState::Restart] {
        let mut level = Level::assemble(&data, &[false; 19], &FuelLevel(0));
        let before = level.tiles().clone();
        assert_eq!(level.react(state, Trigger::FloorImageModified(&new)), None);
        assert_eq!(level.react(state, Trigger::FuelChanged(FuelLevel(90))), None);
        assert_eq!(level.tiles(), &before);
    }
}

#[test]
fn triggers_regenerate_in_play() {
    let data = image(&[0], 23);
    let new = image(&[4, 5], 23);
    let mut level = Level::assemble(&data, &[false; 19], &FuelLevel(0));
    let mut expected = Level::assemble(&data, &[false; 19], &FuelLevel(0));
    let a = level.react(GameState::Playing, Trigger::FloorImageModified(&new));
    let b = expected.reload_floor(&new);
    assert_eq!(a, Some(b));
    let a = level.react(GameState::Playing, Trigger::FuelChanged(FuelLevel(90)));
    let b = expected.update_fuel(&FuelLevel(90));
    assert_eq!(a, Some(b));
    assert_eq!(level, expected);
}

#[test]
fn regeneration_is_due_once_for_any_number_of_events() {
    assert!(!regeneration_due(&[]));
    assert!(!regeneration_due(&[false]));
    assert!(!regeneration_due(&[false, false, false]));
    assert!(regeneration_due(&[true]));
    assert!(regeneration_due(&[false, false, true]));
    assert!(regeneration_due(&[true, true]));
}

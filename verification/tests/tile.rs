use recycles::geometry::{scaled_tile_origin, tile_origin};
use recycles::tile::{Collider, GameLayer, PlacedTile, Sheet, TileKind};

fn ground_box(edge: u32, sensor: bool) -> Collider {
    Collider {
        width: edge,
        height: edge,
        sensor,
        layer: GameLayer::Ground,
        collides_with: GameLayer::Player,
    }
}

const KINDS: [TileKind; 7] = [
    TileKind::Floor,
    TileKind::Hull,
    TileKind::Decor,
    TileKind::Ladder,
    TileKind::TankInput,
    TileKind::Toilet,
    TileKind::Fuel,
];

#[test]
fn blocking_kinds_get_a_box_of_one_tile() {
    for kind in [TileKind::Floor, TileKind::Hull, TileKind::Fuel] {
        assert_eq!(kind.collider(), Some(ground_box(18, false)));
    }
}

#[test]
fn ladder_and_tank_input_are_sensors_of_one_tile() {
    for kind in [TileKind::Ladder, TileKind::TankInput] {
        assert_eq!(kind.collider(), Some(ground_box(18, true)));
    }
}

#[test]
fn waste_port_is_a_half_tile_sensor() {
    assert_eq!(TileKind::Toilet.collider(), Some(ground_box(9, true)));
}

#[test]
fn decor_has_no_collider() {
    assert_eq!(TileKind::Decor.collider(), None);
    for kind in KINDS {
        assert_eq!(kind.collider().is_none(), kind == TileKind::Decor);
    }
}

#[test]
fn floor_tiles_come_from_the_terrain_sheet() {
    assert_eq!(TileKind::Floor.sheet(), Sheet::Terrain);
    for kind in KINDS {
        if kind != TileKind::Floor {
            assert_eq!(kind.sheet(), Sheet::Ship);
        }
    }
}

#[test]
fn sheets_have_their_tile_counts() {
    assert_eq!(Sheet::Terrain.len(), 20 * 9);
    assert_eq!(Sheet::Ship.len(), 16 * 7);
}

#[test]
fn placing_computes_position_and_collider() {
    let tile = PlacedTile::place(TileKind::Hull, 107, 1, 14, None);
    assert_eq!(
        tile,
        PlacedTile {
            kind: TileKind::Hull,
            index: 107,
            x: 1,
            y: 14,
            scale: None,
            position: tile_origin(1, 14),
            collider: Some(ground_box(18, false)),
        }
    );
    assert_eq!(tile.size_scale(), 1);
}

#[test]
fn placing_a_scaled_tile_uses_the_scaled_origin() {
    let tile = PlacedTile::place(TileKind::Toilet, 28, 3, 11, Some(2));
    assert_eq!(tile.position, scaled_tile_origin(3, 11, 2));
    assert_eq!(tile.scale, Some(2));
    assert_eq!(tile.size_scale(), 2);
    assert_eq!(tile.collider, Some(ground_box(9, true)));
}

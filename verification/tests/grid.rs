use recycles::geometry::WorldPos;
use recycles::grid::{generate_map, Cell, OccupancyGrid};
use recycles::tile::{Collider, GameLayer, PlacedTile, TileKind};

fn ground_box(edge: u32, sensor: bool) -> Collider {
    Collider {
        width: edge,
        height: edge,
        sensor,
        layer: GameLayer::Ground,
        collides_with: GameLayer::Player,
    }
}

fn pixels(values: &[u8]) -> Vec<u8> {
    let mut data = Vec::new();
    for v in values {
        data.push(*v);
        data.push(0);
        data.push(0);
        data.push(255);
    }
    data
}

fn floor_tile(x: usize, y: usize) -> PlacedTile {
    PlacedTile {
        kind: TileKind::Floor,
        index: 122,
        x,
        y,
        scale: None,
        position: WorldPos { x: -191 + 18 * x as i128, y: 150 - 18 * y as i128 },
        collider: Some(ground_box(18, false)),
    }
}

#[test]
fn solid_cell_at_index_24_is_placed_at_one_one() {
    let mut values = vec![0u8; 46];
    values[24] = 1;
    let tiles = generate_map(&pixels(&values));
    assert_eq!(tiles, vec![floor_tile(1, 1)]);
    assert_eq!(tiles[0].position, WorldPos { x: -173, y: 132 });
}

#[test]
fn other_values_at_index_24_place_nothing() {
    for value in [0u8, 2, 3, 17, 128, 254, 255] {
        let mut values = vec![0u8; 46];
        values[24] = value;
        assert_eq!(generate_map(&pixels(&values)), vec![]);
    }
}

#[test]
fn only_the_first_channel_is_read() {
    let mut data = pixels(&[0, 1, 0]);
    data[1] = 1;
    data[2] = 1;
    data[3] = 1;
    data[9] = 1;
    data[10] = 1;
    data[11] = 1;
    assert_eq!(generate_map(&data), vec![floor_tile(1, 0)]);
    let mut other = pixels(&[0, 1, 0]);
    other[5] = 77;
    other[6] = 1;
    other[7] = 0;
    assert_eq!(generate_map(&other), generate_map(&data));
}

#[test]
fn cells_are_read_row_by_row() {
    let mut values = vec![0u8; 23 * 3];
    values[0] = 1;
    values[22] = 1;
    values[23] = 1;
    values[23 * 2 + 7] = 1;
    let tiles = generate_map(&pixels(&values));
    assert_eq!(tiles, vec![floor_tile(0, 0), floor_tile(22, 0), floor_tile(0, 1), floor_tile(7, 2)]);
}

#[test]
fn empty_buffer_gives_an_empty_grid() {
    let grid = OccupancyGrid::decode(&[]);
    assert_eq!(grid.len(), 0);
    assert_eq!(grid.rows(), 0);
    assert_eq!(grid.floor_tiles(), vec![]);
    assert_eq!(grid.value(0, 0), None);
    assert_eq!(grid.cell(0, 0), Cell::Empty);
}

#[test]
fn buffer_that_ends_inside_a_pixel_still_yields_its_cell() {
    let grid = OccupancyGrid::decode(&[0, 0, 0, 0, 1]);
    assert_eq!(grid.len(), 2);
    assert_eq!(grid.value(1, 0), Some(1));
    assert_eq!(grid.floor_tiles(), vec![floor_tile(1, 0)]);
    assert_eq!(OccupancyGrid::decode(&[1, 9, 9]).len(), 1);
    assert_eq!(OccupancyGrid::decode(&[1, 9, 9, 9]).len(), 1);
}

#[test]
fn grid_cells_are_the_first_channels() {
    let values: Vec<u8> = (0..60u8).collect();
    let grid = OccupancyGrid::decode(&pixels(&values));
    assert_eq!(grid.len(), 60);
    assert_eq!(grid.rows(), 3);
    for i in 0..60usize {
        assert_eq!(grid.value(i % 23, i / 23), Some(i as u8));
    }
    assert_eq!(grid.value(1, 0), Some(1));
    assert_eq!(grid.cell(1, 0), Cell::SolidFloor);
    assert_eq!(grid.cell(2, 0), Cell::Empty);
    assert_eq!(grid.cell(0, 0), Cell::Empty);
}

#[test]
fn cells_outside_the_grid_are_absent() {
    let grid = OccupancyGrid::decode(&pixels(&[1u8; 30]));
    assert_eq!(grid.rows(), 2);
    assert_eq!(grid.value(22, 0), Some(1));
    assert_eq!(grid.value(23, 0), None);
    assert_eq!(grid.value(6, 1), Some(1));
    assert_eq!(grid.value(7, 1), None);
    assert_eq!(grid.value(0, 2), None);
    assert_eq!(grid.value(0, usize::MAX), None);
    assert_eq!(grid.value(usize::MAX, 0), None);
    assert_eq!(grid.cell(7, 1), Cell::Empty);
    assert_eq!(grid.cell(23, 0), Cell::Empty);
}

#[test]
fn decoding_the_same_buffer_twice_gives_the_same_tiles() {
    let mut values = vec![0u8; 23 * 15];
    for i in (0..values.len()).step_by(7) {
        values[i] = 1;
    }
    for i in (0..values.len()).step_by(5) {
        values[i] = 2;
    }
    let data = pixels(&values);
    let copy = data.clone();
    assert_eq!(generate_map(&data), generate_map(&copy));
    assert_eq!(OccupancyGrid::decode(&data), OccupancyGrid::decode(&copy));
}

#[test]
fn one_floor_tile_per_solid_cell() {
    let mut values = vec![0u8; 23 * 15];
    let mut solid = 0;
    for i in 0..values.len() {
        values[i] = (i % 4) as u8;
        if i % 4 == 1 {
            solid += 1;
        }
    }
    let tiles = generate_map(&pixels(&values));
    assert_eq!(tiles.len(), solid);
    for tile in &tiles {
        assert_eq!(tile.kind, TileKind::Floor);
        assert_eq!(tile.index, 122);
        assert!(tile.x < 23);
        assert_eq!((tile.y * 23 + tile.x) % 4, 1);
        assert_eq!(*tile, floor_tile(tile.x, tile.y));
    }
}

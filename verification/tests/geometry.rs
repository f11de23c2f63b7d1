use recycles::geometry::{
    scaled_tile_origin, tile_origin, tile_position, WorldPos, HEIGHT, TILE_SIZE, WIDTH,
};

#[test]
fn constants_of_the_raster() {
    assert_eq!(TILE_SIZE, 18);
    assert_eq!(WIDTH, 800);
    assert_eq!(HEIGHT, 600);
}

#[test]
fn first_cell_sits_at_the_base_offset() {
    assert_eq!(tile_origin(0, 0), WorldPos { x: -191, y: 150 });
}

#[test]
fn origin_follows_the_affine_formula() {
    assert_eq!(tile_origin(1, 1), WorldPos { x: -173, y: 132 });
    assert_eq!(tile_origin(21, 14), WorldPos { x: -191 + 18 * 21, y: 150 - 18 * 14 });
    assert_eq!(tile_origin(22, 0), WorldPos { x: 205, y: 150 });
}

#[test]
fn one_row_down_is_one_tile_lower() {
    for y in 0..40usize {
        let upper = tile_origin(5, y);
        let lower = tile_origin(5, y + 1);
        assert_eq!(upper.x, lower.x);
        assert_eq!(upper.y - lower.y, 18);
        assert!(lower.y < upper.y);
    }
}

#[test]
fn one_column_right_is_one_tile_further() {
    for x in 0..40usize {
        let left = tile_origin(x, 7);
        let right = tile_origin(x + 1, 7);
        assert_eq!(left.y, right.y);
        assert_eq!(right.x - left.x, 18);
    }
}

#[test]
fn origin_is_exact_for_the_largest_cell() {
    let far = tile_origin(usize::MAX, usize::MAX);
    assert_eq!(far.x, -191 + 18 * (usize::MAX as i128));
    assert_eq!(far.y, 150 - 18 * (usize::MAX as i128));
}

#[test]
fn doubled_sprite_is_shifted_by_half_a_tile() {
    let plain = tile_origin(3, 11);
    let doubled = scaled_tile_origin(3, 11, 2);
    assert_eq!(plain, WorldPos { x: -137, y: -48 });
    assert_eq!(doubled, WorldPos { x: -128, y: -39 });
}

#[test]
fn scaled_origin_follows_the_formula() {
    // base + tile * (pos - 1) + (tile * scale + tile) / 2 on x,
    // base - tile * (pos - 1) - (tile * scale - tile) / 2 on y
    let pos = scaled_tile_origin(3, 9, 2);
    assert_eq!(pos.x, -191 + 18 * 2 + (18 * 2 + 18) / 2);
    assert_eq!(pos.y, 150 - 18 * 8 - (18 * 2 - 18) / 2);
    let pos = scaled_tile_origin(6, 4, 3);
    assert_eq!(pos.x, -191 + 18 * 5 + 36);
    assert_eq!(pos.y, 150 - 18 * 3 - 18);
}

#[test]
fn scaled_origin_keeps_the_left_and_top_edge() {
    for scale in 1..6usize {
        let pos = scaled_tile_origin(4, 6, scale);
        let half = 9 * scale as i128;
        assert_eq!(pos.x - half, tile_origin(4, 6).x - 9);
        assert_eq!(pos.y + half, tile_origin(4, 5).y + 9);
    }
}

#[test]
fn scaled_origin_in_column_and_row_zero() {
    let pos = scaled_tile_origin(0, 0, 2);
    assert_eq!(pos, WorldPos { x: -191 - 18 + 27, y: 150 + 18 - 9 });
    let pos = scaled_tile_origin(0, 0, 0);
    assert_eq!(pos, WorldPos { x: -191 - 18 + 9, y: 150 + 18 + 9 });
}

#[test]
fn position_picks_the_plain_or_the_scaled_origin() {
    assert_eq!(tile_position(3, 11, None), tile_origin(3, 11));
    assert_eq!(tile_position(3, 11, Some(2)), scaled_tile_origin(3, 11, 2));
}

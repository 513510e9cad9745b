use snake_game::draw::{to_coord_u32, BLOCK_SIZE};

#[test]
fn coord_scales_by_block_size() {
    assert_eq!(BLOCK_SIZE, 25);
    assert_eq!(to_coord_u32(0), 0);
    assert_eq!(to_coord_u32(1), 25);
    assert_eq!(to_coord_u32(20), 500);
}

#[test]
fn coord_clamps_to_u32() {
    assert_eq!(to_coord_u32(-1), 0);
    assert_eq!(to_coord_u32(-100), 0);
    assert_eq!(to_coord_u32(i32::MAX), u32::MAX);
}

#[test]
fn coord_matches_float_scaling() {
    for x in [-7, -1, 0, 1, 2, 20, 12345, 100_000, i32::MAX] {
        let expected = ((x as f64) * 25.0) as u32;
        assert_eq!(to_coord_u32(x), expected);
    }
}

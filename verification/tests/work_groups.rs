use raw_processor::pipeline::resource::{tiles, work_groups, TILE};

#[test]
fn ten_pixels_need_two_tiles_of_eight() {
    assert_eq!(tiles(10, 8), 2);
}

#[test]
fn tiles_round_upward() {
    assert_eq!(tiles(0, 8), 0);
    assert_eq!(tiles(1, 8), 1);
    assert_eq!(tiles(7, 8), 1);
    assert_eq!(tiles(8, 8), 1);
    assert_eq!(tiles(9, 8), 2);
    assert_eq!(tiles(16, 8), 2);
    assert_eq!(tiles(17, 8), 3);
    assert_eq!(tiles(10, 4), 3);
    assert_eq!(tiles(12, 4), 3);
    assert_eq!(tiles(13, 4), 4);
}

#[test]
fn tiles_do_not_overflow_at_the_largest_extent() {
    assert_eq!(tiles(u32::MAX, 8), 536_870_912);
    assert_eq!(tiles(u32::MAX, 1), u32::MAX);
    assert_eq!(tiles(u32::MAX, u32::MAX), 1);
    assert_eq!(tiles(5, u32::MAX), 1);
}

#[test]
fn grid_has_one_layer() {
    assert_eq!(work_groups(10, 4, 8), [2, 1, 1]);
    assert_eq!(work_groups(4032, 3024, TILE), [504, 378, 1]);
    assert_eq!(work_groups(4033, 3025, TILE), [505, 379, 1]);
    assert_eq!(work_groups(10, 10, 4), [3, 3, 1]);
}

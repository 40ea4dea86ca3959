use raw_processor::params::{
    pad_matrix, ColorFilterArrangement, Stage1Parameters, Stage2Parameters, Stage3Parameters,
    StageParameters,
};

#[test]
fn arrangement_codes_are_the_four_bayer_orders() {
    assert_eq!(ColorFilterArrangement::from_code(0), Some(ColorFilterArrangement::Rggb));
    assert_eq!(ColorFilterArrangement::from_code(1), Some(ColorFilterArrangement::Grbg));
    assert_eq!(ColorFilterArrangement::from_code(2), Some(ColorFilterArrangement::Gbrg));
    assert_eq!(ColorFilterArrangement::from_code(3), Some(ColorFilterArrangement::Bggr));
    assert_eq!(ColorFilterArrangement::from_code(4), None);
    assert_eq!(ColorFilterArrangement::from_code(-1), None);
    assert_eq!(ColorFilterArrangement::from_code(i32::MAX), None);
    assert_eq!(ColorFilterArrangement::from_code(i32::MIN), None);
}

#[test]
fn plane_orders_follow_the_tile() {
    assert_eq!(ColorFilterArrangement::Rggb.permutation(), [0, 1, 2, 3]);
    assert_eq!(ColorFilterArrangement::Grbg.permutation(), [1, 0, 3, 2]);
    assert_eq!(ColorFilterArrangement::Gbrg.permutation(), [2, 3, 0, 1]);
    assert_eq!(ColorFilterArrangement::Bggr.permutation(), [3, 2, 1, 0]);
}

#[test]
fn plane_order_applied_twice_is_the_identity() {
    for code in 0..4 {
        let planes = ColorFilterArrangement::from_code(code).unwrap().permutation();
        for position in 0..4usize {
            assert!(planes[position] < 4);
            assert_eq!(planes[planes[position] as usize] as usize, position);
        }
    }
}

#[test]
fn matrix_rows_are_padded_with_zero() {
    let rows = pad_matrix(&[1, 2, 3, 4, 5, 6, 7, 8, 9]);
    assert_eq!(rows, [[1, 2, 3, 0], [4, 5, 6, 0], [7, 8, 9, 0]]);
}

#[test]
fn normalize_block_is_white_then_black() {
    let block = StageParameters::Normalize(Stage1Parameters { white_level: 1023, black_level: 64 });
    assert_eq!(block.words(), vec![1023, 64]);
    assert_eq!(block.byte_size(), 8);
}

#[test]
fn demosaic_block_is_the_plane_order() {
    let block = StageParameters::Demosaic(Stage2Parameters { cfa: [3, 2, 1, 0] });
    assert_eq!(block.words(), vec![3, 2, 1, 0]);
    assert_eq!(block.byte_size(), 16);
}

#[test]
fn correction_block_is_two_padded_matrices() {
    let one = 1.0f32.to_bits();
    let half = 0.5f32.to_bits();
    let identity = [one, 0, 0, 0, one, 0, 0, 0, one];
    let other = [half, 2, 3, 4, half, 6, 7, 8, half];
    let block = Stage3Parameters::from_matrices(&identity, &other);
    assert_eq!(block.forward_matrix_1, [[one, 0, 0, 0], [0, one, 0, 0], [0, 0, one, 0]]);
    assert_eq!(block.forward_matrix_2, [[half, 2, 3, 0], [4, half, 6, 0], [7, 8, half, 0]]);
    let words = StageParameters::ColorCorrect(block).words();
    assert_eq!(
        words,
        vec![
            one, 0, 0, 0, 0, one, 0, 0, 0, 0, one, 0, half, 2, 3, 0, 4, half, 6, 0, 7, 8, half, 0
        ]
    );
    assert_eq!(StageParameters::ColorCorrect(block).byte_size(), 96);
    assert_eq!(one, 0x3f80_0000);
}

#[test]
fn absent_block_is_empty() {
    assert_eq!(StageParameters::Absent.words(), Vec::<u32>::new());
    assert_eq!(StageParameters::Absent.byte_size(), 0);
}

#[test]
fn block_size_is_four_bytes_a_word() {
    let blocks = [
        StageParameters::Absent,
        StageParameters::Normalize(Stage1Parameters { white_level: 1, black_level: 0 }),
        StageParameters::Demosaic(Stage2Parameters { cfa: [0, 1, 2, 3] }),
        StageParameters::ColorCorrect(Stage3Parameters::from_matrices(&[0; 9], &[0; 9])),
    ];
    for block in blocks {
        assert_eq!(block.byte_size() as usize, 4 * block.words().len());
    }
}

use baselines::linalg::banded::band_index;
use baselines::linalg::pspline::general_band_index;
use baselines::data::{MatrixView, MatrixViewMut};
use baselines::two_d::morphology::{
    reflect_index, validate_input_output, window_indices, Morphology2DParams, MorphologyShape, MorphologyWindow,
};
use baselines::two_d::polynomial::{basis_terms, validate_poly_input};
use baselines::BaselineError;

#[test]
fn band_index_stores_bands_contiguously() {
    assert_eq!(band_index(5, 0, 3), 3);
    assert_eq!(band_index(5, 2, 1), 11);
    let mut seen = std::collections::HashSet::new();
    for offset in 0..3 {
        for lower in 0..5 {
            assert!(seen.insert(band_index(5, offset, lower)));
            assert!(band_index(5, offset, lower) < 15);
        }
    }
}

#[test]
fn general_band_index_maps_diagonals() {
    assert_eq!(general_band_index(2, 4, 4), Some(2));
    assert_eq!(general_band_index(2, 4, 6), Some(4));
    assert_eq!(general_band_index(2, 4, 2), Some(0));
    assert_eq!(general_band_index(2, 4, 7), None);
    assert_eq!(general_band_index(2, 4, 1), None);
    assert_eq!(general_band_index(0, 3, 3), Some(0));
}

#[test]
fn basis_terms_enumerate_degree_pairs() {
    assert_eq!(basis_terms(0), vec![(0, 0)]);
    assert_eq!(
        basis_terms(2),
        vec![(0, 0), (0, 1), (0, 2), (1, 0), (1, 1), (1, 2), (2, 0), (2, 1), (2, 2)]
    );
    assert_eq!(basis_terms(4).len(), 25);
}

#[test]
fn looped_reflection_matches_mirroring() {
    for len in 1..7usize {
        for i in -30..30isize {
            assert_eq!(reflect_index(i, len), baselines::classification::reflect_index(i, len));
        }
    }
    assert_eq!(reflect_index(-1, 4), 0);
    assert_eq!(reflect_index(4, 4), 3);
    assert_eq!(reflect_index(9, 4), 1);
}

#[test]
fn window_indices_mirror_at_edges() {
    assert_eq!(window_indices(0, 5, 2), vec![1, 0, 0, 1, 2]);
    assert_eq!(window_indices(4, 5, 2), vec![2, 3, 4, 4, 3]);
    assert_eq!(window_indices(2, 5, 0), vec![2]);
    assert_eq!(window_indices(0, 1, 3), vec![0; 7]);
}

#[test]
fn morphology_shape_and_window() {
    let shape = MorphologyShape::new(4, 5);
    assert_eq!(shape.len(), 20);
    assert_eq!(shape, MorphologyShape { rows: 4, cols: 5 });
    let window = MorphologyWindow::new(3, 1);
    assert_eq!(window.row_radius, 3);
    assert_eq!(window.col_radius, 1);
}

#[test]
fn poly_input_validation_checks_shape_and_basis_size() {

    let input_data = [0u8; 6];
    let input = MatrixView::row_major(&input_data, 2, 3, None).unwrap();

    let mut same = [0u8; 6];
    let output = MatrixViewMut::row_major(&mut same, 2, 3).unwrap();
    assert_eq!(validate_poly_input(input, &output, 1), Ok(()));
    assert_eq!(
        validate_poly_input(input, &output, 2),
        Err(BaselineError::TooShort { algorithm: "two_d_polynomial", len: 6, min: 9 })
    );

    let mut other = [0u8; 6];
    let transposed = MatrixViewMut::row_major(&mut other, 3, 2).unwrap();
    assert_eq!(
        validate_poly_input(input, &transposed, 1),
        Err(BaselineError::LengthMismatch { name: "output", expected: 6, actual: 6 })
    );
}

#[test]
fn morphology_input_validation_checks_window_and_shape() {

    let input_data = [0i32; 4];
    let input = MatrixView::row_major(&input_data, 2, 2, None).unwrap();
    let mut out_data = [0i32; 4];
    let output = MatrixViewMut::row_major(&mut out_data, 2, 2).unwrap();
    let params = Morphology2DParams::default();
    assert_eq!(validate_input_output(input, &output, params), Ok(()));

    let zero_rows = Morphology2DParams { window_rows: 0, window_cols: 3 };
    assert_eq!(
        validate_input_output(input, &output, zero_rows),
        Err(BaselineError::InvalidParameter { name: "window_rows", reason: "must be greater than zero" })
    );

    let mut wide_data = [0i32; 6];
    let wide = MatrixViewMut::row_major(&mut wide_data, 2, 3).unwrap();
    assert_eq!(
        validate_input_output(input, &wide, params),
        Err(BaselineError::LengthMismatch { name: "output", expected: 4, actual: 6 })
    );
}

use baselines::data::{
    checked_matrix_len, validate_matrix_data, validate_matrix_len, MatrixLayout, MatrixShape,
    MatrixView, MatrixViewMut,
};
use baselines::fit::{Fit2D, FitReport};
use baselines::BaselineError;

fn first_non_finite(data: &[f64]) -> Option<usize> {
    data.iter().position(|value| !value.is_finite())
}

fn invalid(name: &'static str, reason: &'static str) -> BaselineError {
    BaselineError::InvalidParameter { name, reason }
}

#[test]
fn matrix_shape_accepts_positive_dimensions() {
    let shape = MatrixShape::new(3, 4).unwrap();
    assert_eq!(shape, MatrixShape { rows: 3, cols: 4 });
    assert_eq!(shape.len(), 12);
    assert!(!shape.is_empty());
}

#[test]
fn matrix_shape_rejects_zero_and_overflowing_dimensions() {
    assert_eq!(MatrixShape::new(0, 4), Err(invalid("rows", "must be greater than zero")));
    assert_eq!(MatrixShape::new(0, 0), Err(invalid("rows", "must be greater than zero")));
    assert_eq!(MatrixShape::new(4, 0), Err(invalid("cols", "must be greater than zero")));
    assert_eq!(
        MatrixShape::new(usize::MAX, 2),
        Err(invalid("shape", "rows * cols overflows usize"))
    );
    assert_eq!(MatrixShape::new(usize::MAX, 1).unwrap().len(), usize::MAX);
}

#[test]
fn empty_shape_literal_reports_empty() {
    assert!(MatrixShape { rows: 0, cols: 5 }.is_empty());
}

#[test]
fn checked_matrix_len_multiplies() {
    assert_eq!(checked_matrix_len(6, 7), Ok(42));
    assert_eq!(checked_matrix_len(1, 0), Err(invalid("cols", "must be greater than zero")));
}

#[test]
fn validate_matrix_len_reports_mismatch() {
    assert_eq!(validate_matrix_len("data", 2, 3, 6), Ok(()));
    assert_eq!(
        validate_matrix_len("data", 2, 3, 5),
        Err(BaselineError::LengthMismatch { name: "data", expected: 6, actual: 5 })
    );
    assert_eq!(validate_matrix_len("data", 0, 3, 0), Err(invalid("rows", "must be greater than zero")));
}

#[test]
fn validate_matrix_data_checks_length_before_values() {
    assert_eq!(validate_matrix_data("data", 2, 2, 4, None), Ok(()));
    assert_eq!(
        validate_matrix_data("data", 2, 2, 4, Some(3)),
        Err(BaselineError::NonFiniteInput { index: 3 })
    );
    assert_eq!(
        validate_matrix_data("data", 2, 2, 3, Some(0)),
        Err(BaselineError::LengthMismatch { name: "data", expected: 4, actual: 3 })
    );
}

#[test]
fn matrix_view_indexes_row_major() {
    let data = [1.0, 2.0, 3.0, 4.0, 5.0, 6.0];
    let view = MatrixView::row_major(&data, 2, 3, first_non_finite(&data)).unwrap();
    assert_eq!(view.shape(), MatrixShape { rows: 2, cols: 3 });
    assert_eq!(view.layout(), MatrixLayout::RowMajor);
    assert_eq!(view.len(), 6);
    assert!(!view.is_empty());
    assert_eq!(view.get(1, 0), Some(4.0));
    assert_eq!(view.get(0, 2), Some(3.0));
    assert_eq!(view.get(2, 0), None);
    assert_eq!(view.get(0, 3), None);
    assert_eq!(view.index(1, 2), Some(5));
    assert_eq!(view.row(1), Some(&data[3..6]));
    assert_eq!(view.row(2), None);
    assert_eq!(view.as_slice(), &data);
}

#[test]
fn matrix_view_rejects_wrong_length() {
    let data = [1.0, 2.0, 3.0];
    assert_eq!(
        MatrixView::row_major(&data, 2, 2, first_non_finite(&data)).unwrap_err(),
        BaselineError::LengthMismatch { name: "data", expected: 4, actual: 3 }
    );
    assert_eq!(
        MatrixView::new(&data, 3, 0, MatrixLayout::RowMajor, first_non_finite(&data)).unwrap_err(),
        invalid("cols", "must be greater than zero")
    );
}

#[test]
fn matrix_view_mut_writes_in_place() {
    let mut data = vec![0.0; 6];
    {
        let mut view = MatrixViewMut::row_major(&mut data, 3, 2).unwrap();
        assert_eq!(view.set(2, 1, 7.5), Ok(()));
        assert_eq!(
            view.set(3, 0, 1.0),
            Err(invalid("index", "row or column is outside the matrix shape"))
        );
        assert_eq!(view.get(2, 1), Some(7.5));
        if let Some(row) = view.row_mut(0) {
            row[1] = 2.0;
        }
        assert!(view.row_mut(3).is_none());
        view.as_mut_slice()[2] = -1.0;
        assert_eq!(view.row(1), Some(&[-1.0, 0.0][..]));
        assert_eq!(view.len(), 6);
        assert_eq!(view.rows(), 3);
        assert_eq!(view.cols(), 2);
    }
    assert_eq!(data, vec![0.0, 2.0, -1.0, 0.0, 0.0, 7.5]);
}

#[test]
fn matrix_view_mut_rejects_wrong_length() {
    let mut data = vec![0.0; 5];
    assert_eq!(
        MatrixViewMut::row_major(&mut data, 2, 3).unwrap_err(),
        BaselineError::LengthMismatch { name: "data", expected: 6, actual: 5 }
    );
}

#[test]
fn default_layout_is_row_major() {
    assert_eq!(MatrixLayout::default(), MatrixLayout::RowMajor);
}

#[test]
fn fit_2d_checks_baseline_length() {
    let report = FitReport::new(3, true, 0.25);
    assert_eq!(report.iterations, 3);
    assert!(report.converged);
    let fit = Fit2D::new(vec![1.0; 6], 2, 3, report).unwrap();
    assert_eq!(fit.shape(), (2, 3));
    assert_eq!(fit.len(), 6);
    assert!(!fit.is_empty());
    assert_eq!(
        Fit2D::new(vec![1.0; 5], 2, 3, report).unwrap_err(),
        BaselineError::LengthMismatch { name: "baseline", expected: 6, actual: 5 }
    );
}

#[test]
fn matrix_view_rejects_non_finite_data_after_length() {
    let data = [1.0, f64::NAN, 3.0, f64::INFINITY];
    assert_eq!(
        MatrixView::row_major(&data, 2, 2, first_non_finite(&data)).unwrap_err(),
        BaselineError::NonFiniteInput { index: 1 }
    );
    assert_eq!(
        MatrixView::row_major(&data, 1, 3, first_non_finite(&data)).unwrap_err(),
        BaselineError::LengthMismatch { name: "data", expected: 3, actual: 4 }
    );
}

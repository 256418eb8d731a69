use baselines::backend::cpu::validate_batch;
use baselines::backend::cubecl_wgpu::{validate_batch as device_batch, validate_window_size};
use baselines::data::MatrixView;
use baselines::misc::{anchor_order, validate_anchor_indices};
use baselines::linalg::pentadiagonal::{validate_general_band_lengths, GeneralPentadiagonalSystem};
use baselines::two_d::optimizers::validate_surfaces;
use baselines::misc::beads::{validate_beads_params, BeadsRealChecks};
use baselines::workspace::{validate_lengths, validate_min_len, validate_output, validate_signal_scan};
use baselines::BaselineError;

fn mismatch(name: &'static str, expected: usize, actual: usize) -> BaselineError {
    BaselineError::LengthMismatch { name, expected, actual }
}

#[test]
fn output_length_must_match() {
    assert_eq!(validate_output("output", 4, 4), Ok(()));
    assert_eq!(validate_output("output", 4, 3), Err(mismatch("output", 4, 3)));
}

#[test]
fn signal_scan_reports_empty_then_non_finite() {
    assert_eq!(validate_signal_scan(0, Some(0)), Err(BaselineError::EmptyInput));
    assert_eq!(validate_signal_scan(5, Some(3)), Err(BaselineError::NonFiniteInput { index: 3 }));
    assert_eq!(validate_signal_scan(5, None), Ok(()));
}

#[test]
fn pentadiagonal_lengths_are_checked_in_order() {
    let diag = [1.0f64; 4];
    let near = [0.0f64; 3];
    let far = [0.0f64; 2];
    let rhs = [0.0f64; 4];
    let out = [0.0f64; 4];
    let system = GeneralPentadiagonalSystem { lower2: &far, lower1: &near, diag: &diag, upper1: &near, upper2: &far };
    assert_eq!(validate_general_band_lengths(&system, &rhs, &out), Ok(()));

    let short = [0.0f64; 1];
    let bad_upper = GeneralPentadiagonalSystem { lower2: &far, lower1: &near, diag: &diag, upper1: &short, upper2: &short };
    assert_eq!(validate_general_band_lengths(&bad_upper, &rhs, &out), Err(mismatch("upper1", 3, 1)));
    assert_eq!(validate_general_band_lengths(&system, &rhs, &short), Err(mismatch("output", 4, 1)));
    assert_eq!(validate_general_band_lengths(&system, &short, &short), Err(mismatch("rhs", 4, 1)));

    let empty: [f64; 0] = [];
    let none = GeneralPentadiagonalSystem { lower2: &empty, lower1: &empty, diag: &empty, upper1: &empty, upper2: &empty };
    assert_eq!(validate_general_band_lengths(&none, &empty, &empty), Err(BaselineError::EmptyInput));

    let single = [2.0f64; 1];
    let one = GeneralPentadiagonalSystem { lower2: &empty, lower1: &empty, diag: &single, upper1: &empty, upper2: &empty };
    assert_eq!(validate_general_band_lengths(&one, &single, &single), Ok(()));
}

#[test]
fn surfaces_must_share_the_first_shape() {
    let a = [0u8; 6];
    let b = [0u8; 6];
    let c = [0u8; 4];
    let first = MatrixView::row_major(&a, 2, 3, None).unwrap();
    let same = MatrixView::row_major(&b, 2, 3, None).unwrap();
    let transposed = MatrixView::row_major(&b, 3, 2, None).unwrap();
    let small = MatrixView::row_major(&c, 2, 2, None).unwrap();
    assert_eq!(validate_surfaces::<u8>(&[]), Err(BaselineError::EmptyInput));
    assert_eq!(validate_surfaces(&[first, same]), Ok(()));
    assert_eq!(validate_surfaces(&[first, same, small, transposed]), Err(mismatch("surface", 6, 4)));
    assert_eq!(validate_surfaces(&[first, transposed, small]), Err(mismatch("surface", 6, 6)));
}

#[test]
fn anchors_are_ordered_stably_by_index() {
    assert_eq!(anchor_order(&[]), Vec::<usize>::new());
    assert_eq!(anchor_order(&[5, 1, 3]), vec![1, 2, 0]);
    assert_eq!(anchor_order(&[2, 0, 2, 0, 1]), vec![1, 3, 4, 0, 2]);
    assert_eq!(anchor_order(&[4, 4, 4]), vec![0, 1, 2]);
}

#[test]
fn anchor_indices_must_be_present_and_inside() {
    assert_eq!(
        validate_anchor_indices(5, &[]),
        Err(BaselineError::InvalidParameter { name: "points", reason: "must contain at least one anchor" })
    );
    assert_eq!(
        validate_anchor_indices(5, &[0, 5, 2]),
        Err(BaselineError::InvalidParameter { name: "points", reason: "anchor index is outside the input length" })
    );
    assert_eq!(validate_anchor_indices(5, &[4, 0, 2]), Ok(()));
}

#[test]
fn batch_shape_is_checked() {
    assert_eq!(validate_batch(2, 3, 6, 6, None), Ok(()));
    assert_eq!(validate_batch(2, 3, 5, 6, None), Err(mismatch("input", 6, 5)));
    assert_eq!(validate_batch(2, 3, 6, 7, None), Err(mismatch("output", 6, 7)));
    assert_eq!(validate_batch(0, 3, 0, 0, None), Err(BaselineError::EmptyInput));
    assert_eq!(validate_batch(0, 3, 2, 0, Some(1)), Err(BaselineError::NonFiniteInput { index: 1 }));
    assert_eq!(validate_batch(0, 3, 2, 0, None), Err(mismatch("input", 0, 2)));
}

#[test]
fn device_batch_is_checked_before_launch() {
    let invalid = |name, reason| BaselineError::InvalidParameter { name, reason };
    assert_eq!(device_batch(2, None, 1, 3), Err(mismatch("input", 3, 2)));
    assert_eq!(device_batch(0, None, 1, 3), Err(BaselineError::EmptyInput));
    assert_eq!(device_batch(4, Some(2), 2, 2), Err(BaselineError::NonFiniteInput { index: 2 }));
    assert_eq!(
        device_batch(4, None, 0, 4),
        Err(invalid("batch_shape", "n_spectra and n_points must be greater than zero"))
    );
    assert_eq!(
        device_batch(4, None, usize::MAX, 2),
        Err(invalid("batch_shape", "n_spectra * n_points overflowed"))
    );
    assert_eq!(device_batch(6, None, 2, 3), Ok(()));
    assert_eq!(validate_window_size(0), Err(invalid("window_size", "must be greater than zero")));
    assert_eq!(validate_window_size(3), Ok(()));
}

#[test]
fn lengths_are_checked_in_order() {
    assert_eq!(validate_lengths(&[]), Ok(()));
    assert_eq!(validate_lengths(&[("x", 3, 3), ("rhs", 3, 3)]), Ok(()));
    assert_eq!(
        validate_lengths(&[("x", 3, 3), ("rhs", 3, 2), ("output", 3, 1)]),
        Err(mismatch("rhs", 3, 2))
    );
    assert_eq!(validate_lengths(&[("bands", 8, 6)]), Err(mismatch("bands", 8, 6)));
}

#[test]
fn short_inputs_are_rejected() {
    assert_eq!(
        validate_min_len("whittaker", 2, 3),
        Err(BaselineError::TooShort { algorithm: "whittaker", len: 2, min: 3 })
    );
    assert_eq!(validate_min_len("whittaker", 3, 3), Ok(()));
}

#[test]
fn beads_parameters_are_checked_in_order() {
    let all = BeadsRealChecks {
        freq_cutoff: true,
        lam_0: true,
        lam_1: true,
        lam_2: true,
        asymmetry: true,
        tol: true,
        eps_0: true,
        eps_1: true,
    };
    let invalid = |name, reason| BaselineError::InvalidParameter { name, reason };
    assert_eq!(validate_beads_params(all, 1, 50), Ok(()));
    assert_eq!(
        validate_beads_params(BeadsRealChecks { lam_1: false, tol: false, ..all }, 1, 50),
        Err(invalid("lam_1", "must be finite and non-negative"))
    );
    assert_eq!(
        validate_beads_params(BeadsRealChecks { tol: false, ..all }, 2, 50),
        Err(BaselineError::Unsupported {
            feature: "beads.filter_type",
            reason: "only filter_type = 1 is currently implemented"
        })
    );
    assert_eq!(
        validate_beads_params(BeadsRealChecks { tol: false, ..all }, 1, 0),
        Err(invalid("max_iter", "must be greater than zero"))
    );
    assert_eq!(
        validate_beads_params(BeadsRealChecks { freq_cutoff: false, ..all }, 2, 0),
        Err(invalid("freq_cutoff", "must be finite and between 0 and 0.5"))
    );
    assert_eq!(
        validate_beads_params(BeadsRealChecks { eps_1: false, ..all }, 1, 3),
        Err(invalid("eps_1", "must be finite and non-negative"))
    );
}

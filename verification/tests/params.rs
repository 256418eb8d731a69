use baselines::misc::beads::{reflect_index as beads_reflect_index, BeadsCostFunction};
use baselines::morphology::{MorphologyParams, SnipParams};
use baselines::polynomial::{LoessParams, PenalizedCost, PolyParams};
use baselines::smoothing::{reflect_index as smoothing_reflect_index, SmoothingParams};
use baselines::spline::corner::CornerCuttingParams;
use baselines::two_d::morphology::Morphology2DParams;
use baselines::two_d::polynomial::Poly2DParams;
use baselines::two_d::whittaker_eigen::validate_num_eigens;
use baselines::BaselineError;

fn invalid(name: &'static str, reason: &'static str) -> BaselineError {
    BaselineError::InvalidParameter { name, reason }
}

#[test]
fn parameter_defaults() {
    assert_eq!(MorphologyParams::default().window_size, 31);
    assert_eq!(SnipParams::default().max_half_window, 40);
    assert_eq!(SmoothingParams::default(), SmoothingParams { window_size: 31, max_iter: 20 });
    assert_eq!(PolyParams::default().order, 2);
    assert_eq!(LoessParams::default().window_size, 31);
    assert_eq!(CornerCuttingParams::default().max_iter, 100);
    assert_eq!(Morphology2DParams::default(), Morphology2DParams { window_rows: 7, window_cols: 7 });
    assert_eq!(Poly2DParams::default().order, 2);
}

#[test]
fn morphology_params_validate_and_round_window() {
    assert_eq!(MorphologyParams { window_size: 0 }.validate(), Err(invalid("window_size", "must be greater than zero")));
    assert_eq!(MorphologyParams { window_size: 1 }.validate(), Ok(()));
    assert_eq!(MorphologyParams { window_size: 31 }.radius(), 15);
    // an even window is rounded up: 2 * radius + 1 == 31 for a window of 30
    assert_eq!(MorphologyParams { window_size: 30 }.radius(), 15);
    assert_eq!(SnipParams { max_half_window: 0 }.validate(), Err(invalid("max_half_window", "must be greater than zero")));
    assert_eq!(SnipParams { max_half_window: 3 }.validate(), Ok(()));
}

#[test]
fn smoothing_params_validate_in_order() {
    assert_eq!(
        SmoothingParams { window_size: 0, max_iter: 0 }.validate(),
        Err(invalid("window_size", "must be greater than zero"))
    );
    assert_eq!(
        SmoothingParams { window_size: 5, max_iter: 0 }.validate(),
        Err(invalid("max_iter", "must be greater than zero"))
    );
    assert_eq!(SmoothingParams { window_size: 5, max_iter: 1 }.validate(), Ok(()));
}

#[test]
fn corner_cutting_params_validate() {
    assert_eq!(CornerCuttingParams { max_iter: 0 }.validate(), Err(invalid("max_iter", "must be greater than zero")));
    assert_eq!(CornerCuttingParams { max_iter: 1 }.validate(), Ok(()));
}

#[test]
fn morphology_2d_params_validate_and_radii() {
    assert_eq!(
        Morphology2DParams { window_rows: 0, window_cols: 0 }.validate(),
        Err(invalid("window_rows", "must be greater than zero"))
    );
    assert_eq!(
        Morphology2DParams { window_rows: 3, window_cols: 0 }.validate(),
        Err(invalid("window_cols", "must be greater than zero"))
    );
    assert_eq!(Morphology2DParams { window_rows: 3, window_cols: 4 }.validate(), Ok(()));
    assert_eq!(Morphology2DParams { window_rows: 7, window_cols: 4 }.radii(), (3, 2));
}

#[test]
fn penalized_cost_asymmetry() {
    assert!(PenalizedCost::AsymmetricTruncatedQuadratic.is_asymmetric());
    assert!(PenalizedCost::AsymmetricHuber.is_asymmetric());
    assert!(PenalizedCost::AsymmetricIndec.is_asymmetric());
    assert!(!PenalizedCost::SymmetricTruncatedQuadratic.is_asymmetric());
    assert!(!PenalizedCost::SymmetricHuber.is_asymmetric());
    assert!(!PenalizedCost::SymmetricIndec.is_asymmetric());
}

#[test]
fn num_eigens_bounds() {
    assert_eq!(validate_num_eigens("row eigenvalues", 10, 20, 2), Ok(()));
    assert_eq!(validate_num_eigens("row eigenvalues", 3, 3, 2), Ok(()));
    assert_eq!(
        validate_num_eigens("row eigenvalues", 21, 20, 2),
        Err(invalid("row eigenvalues", "must not be greater than the number of points"))
    );
    assert_eq!(
        validate_num_eigens("column eigenvalues", 2, 20, 2),
        Err(invalid("column eigenvalues", "must be greater than the difference order"))
    );
}

#[test]
fn edge_reflections_without_repeats_agree() {
    for len in 0..6usize {
        for i in -12..12isize {
            assert_eq!(smoothing_reflect_index(i, len), beads_reflect_index(i, len));
            assert_eq!(
                smoothing_reflect_index(i, len),
                baselines::classification::reflect_pad_index(i, len)
            );
        }
    }
    assert_eq!(smoothing_reflect_index(-1, 5), 1);
    assert_eq!(smoothing_reflect_index(5, 5), 3);
}

#[test]
fn beads_cost_functions_differ() {
    assert_ne!(BeadsCostFunction::L1V1, BeadsCostFunction::L1V2);
}

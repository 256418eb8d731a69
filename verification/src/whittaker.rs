//! Parameter records of the Whittaker-smoothing baselines.
//!
//! The smoothness penalty, tolerance and asymmetry are real numbers; they are
//! carried here as values of the number type `R`, which the numeric code
//! instantiates with `f64`.

use vstd::prelude::*;

verus! {

/// Common parameters of the Whittaker-smoothing baselines.
#[derive(Debug, Clone, Copy, PartialEq)]
pub struct WhittakerParams<R> {
    /// Smoothness penalty. Larger values produce smoother baselines.
    pub lambda: R,
    /// Maximum number of reweighting iterations.
    pub max_iter: usize,
    /// Relative weight-change tolerance.
    pub tol: R,
}

/// Parameters of asymmetric least-squares smoothing.
#[derive(Debug, Clone, Copy, PartialEq)]
pub struct AslsParams<R> {
    /// Shared Whittaker parameters.
    pub whittaker: WhittakerParams<R>,
    /// Asymmetry weight given to points above the baseline.
    pub p: R,
}

} // verus!

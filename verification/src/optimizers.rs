//! Parameter records of the optimizing and meta-algorithm baselines.

use vstd::prelude::*;
use crate::whittaker::AslsParams;

verus! {

/// Parameters for the customized baseline correction, which fits a baseline
/// on a resampled signal that keeps every sample inside the given regions.
///
/// The smoothing penalty and the AsLS parameters are real numbers of the
/// number type `R`, which the numeric code instantiates with `f64`.
#[derive(Debug, Clone, PartialEq)]
pub struct CustomBcParams<R> {
    /// Index ranges `(start, end)` kept at full resolution; `None` reaches to
    /// the corresponding edge of the signal.
    pub regions: Vec<(Option<usize>, Option<usize>)>,
    /// Sampling step outside the regions.
    pub sampling: usize,
    /// AsLS parameters for the baseline of the resampled signal.
    pub asls: AslsParams<R>,
    /// Optional penalty for smoothing the interpolated baseline.
    pub smooth_lambda: Option<R>,
}

} // verus!

//! Builders for one-dimensional signals.

use vstd::prelude::*;
use crate::classification::CwtBrParams;
use crate::optimizers::CustomBcParams;
use crate::whittaker::AslsParams;

verus! {

/// Builder for the customized baseline correction of a signal `I`.
#[derive(Debug, Clone)]
pub struct CustomBcBuilder<I, R> {
    y: I,
    params: CustomBcParams<R>,
}

impl<I, R> CustomBcBuilder<I, R> {
    /// The signal the builder fits.
    pub closed spec fn spec_input(&self) -> I {
        self.y
    }

    /// The parameters the builder will fit with.
    pub closed spec fn spec_params(&self) -> CustomBcParams<R> {
        self.params
    }

    /// Creates a builder for `y` with the given parameters.
    pub fn new(y: I, params: CustomBcParams<R>) -> (b: Self)
        ensures
            b.spec_input() == y,
            b.spec_params() == params,
    {
        CustomBcBuilder { y, params }
    }

    /// Replaces all parameters.
    pub fn with_params(self, params: CustomBcParams<R>) -> (b: Self)
        ensures
            b.spec_input() == self.spec_input(),
            b.spec_params() == params,
    {
        CustomBcBuilder { y: self.y, params }
    }

    /// The parameters the builder will fit with.
    pub fn params(&self) -> (p: &CustomBcParams<R>)
        ensures
            *p == self.spec_params(),
    {
        &self.params
    }

    /// The signal the builder fits.
    pub fn input(&self) -> (y: &I)
        ensures
            *y == self.spec_input(),
    {
        &self.y
    }

    /// Sets the index ranges kept at full resolution.
    pub fn regions(self, regions: Vec<(Option<usize>, Option<usize>)>) -> (b: Self)
        ensures
            b.spec_input() == self.spec_input(),
            b.spec_params() == (CustomBcParams { regions, ..self.spec_params() }),
    {
        let mut params = self.params;
        params.regions = regions;
        CustomBcBuilder { y: self.y, params }
    }

    /// Keeps the single index range `(start, end)` at full resolution.
    pub fn region(self, start: Option<usize>, end: Option<usize>) -> (b: Self)
        ensures
            b.spec_input() == self.spec_input(),
            b.spec_params().regions@ == seq![(start, end)],
            b.spec_params() == (CustomBcParams { regions: b.spec_params().regions, ..self.spec_params() }),
    {
        let mut params = self.params;
        params.regions = vec![(start, end)];
        CustomBcBuilder { y: self.y, params }
    }

    /// Sets the sampling step outside the regions.
    pub fn sampling(self, value: usize) -> (b: Self)
        ensures
            b.spec_input() == self.spec_input(),
            b.spec_params() == (CustomBcParams { sampling: value, ..self.spec_params() }),
    {
        let mut params = self.params;
        params.sampling = value;
        CustomBcBuilder { y: self.y, params }
    }

    /// Sets the AsLS parameters for the baseline of the resampled signal.
    pub fn asls_params(self, asls: AslsParams<R>) -> (b: Self)
        ensures
            b.spec_input() == self.spec_input(),
            b.spec_params() == (CustomBcParams { asls, ..self.spec_params() }),
    {
        let mut params = self.params;
        params.asls = asls;
        CustomBcBuilder { y: self.y, params }
    }

    /// Sets the penalty for smoothing the interpolated baseline.
    pub fn smooth_lambda(self, value: R) -> (b: Self)
        ensures
            b.spec_input() == self.spec_input(),
            b.spec_params() == (CustomBcParams { smooth_lambda: Some(value), ..self.spec_params() }),
    {
        let mut params = self.params;
        params.smooth_lambda = Some(value);
        CustomBcBuilder { y: self.y, params }
    }

    /// Leaves the interpolated baseline unsmoothed.
    pub fn no_smooth_lambda(self) -> (b: Self)
        ensures
            b.spec_input() == self.spec_input(),
            b.spec_params() == (CustomBcParams { smooth_lambda: None, ..self.spec_params() }),
    {
        let mut params = self.params;
        params.smooth_lambda = None;
        CustomBcBuilder { y: self.y, params }
    }
}


/// Builder for the wavelet-based classification of a signal `I`.
#[derive(Debug, Clone)]
pub struct CwtBrBuilder<I, R> {
    y: I,
    params: CwtBrParams<R>,
}

impl<I, R> CwtBrBuilder<I, R> {
    /// The signal the builder fits.
    pub closed spec fn spec_input(&self) -> I {
        self.y
    }

    /// The parameters the builder will fit with.
    pub closed spec fn spec_params(&self) -> CwtBrParams<R> {
        self.params
    }

    /// Creates a builder for `y` with the given parameters.
    pub fn new(y: I, params: CwtBrParams<R>) -> (b: Self)
        ensures
            b.spec_input() == y,
            b.spec_params() == params,
    {
        CwtBrBuilder { y, params }
    }

    /// Replaces all parameters.
    pub fn with_params(self, params: CwtBrParams<R>) -> (b: Self)
        ensures
            b.spec_input() == self.spec_input(),
            b.spec_params() == params,
    {
        CwtBrBuilder { y: self.y, params }
    }

    /// The parameters the builder will fit with.
    pub fn params(&self) -> (p: &CwtBrParams<R>)
        ensures
            *p == self.spec_params(),
    {
        &self.params
    }

    /// The signal the builder fits.
    pub fn input(&self) -> (y: &I)
        ensures
            *y == self.spec_input(),
    {
        &self.y
    }

    /// Sets the polynomial order of the fitted baseline.
    pub fn poly_order(self, value: usize) -> (b: Self)
        ensures
            b.spec_input() == self.spec_input(),
            b.spec_params() == (CwtBrParams { poly_order: value, ..self.spec_params() }),
    {
        let mut params = self.params;
        params.poly_order = value;
        CwtBrBuilder { y: self.y, params }
    }

    /// Sets the number of standard deviations above which a sample is a peak.
    pub fn num_std(self, value: R) -> (b: Self)
        ensures
            b.spec_input() == self.spec_input(),
            b.spec_params() == (CwtBrParams { num_std: value, ..self.spec_params() }),
    {
        let mut params = self.params;
        params.num_std = value;
        CwtBrBuilder { y: self.y, params }
    }

    /// Sets the minimum length of a kept baseline run.
    pub fn min_length(self, value: usize) -> (b: Self)
        ensures
            b.spec_input() == self.spec_input(),
            b.spec_params() == (CwtBrParams { min_length: value, ..self.spec_params() }),
    {
        let mut params = self.params;
        params.min_length = value;
        CwtBrBuilder { y: self.y, params }
    }

    /// Sets the maximum number of refinement iterations.
    pub fn max_iter(self, value: usize) -> (b: Self)
        ensures
            b.spec_input() == self.spec_input(),
            b.spec_params() == (CwtBrParams { max_iter: value, ..self.spec_params() }),
    {
        let mut params = self.params;
        params.max_iter = value;
        CwtBrBuilder { y: self.y, params }
    }

    /// Sets the convergence tolerance.
    pub fn tol(self, value: R) -> (b: Self)
        ensures
            b.spec_input() == self.spec_input(),
            b.spec_params() == (CwtBrParams { tol: value, ..self.spec_params() }),
    {
        let mut params = self.params;
        params.tol = value;
        CwtBrBuilder { y: self.y, params }
    }

    /// Sets whether the peaks are symmetric about their centres.
    pub fn symmetric(self, value: bool) -> (b: Self)
        ensures
            b.spec_input() == self.spec_input(),
            b.spec_params() == (CwtBrParams { symmetric: value, ..self.spec_params() }),
    {
        let mut params = self.params;
        params.symmetric = value;
        CwtBrBuilder { y: self.y, params }
    }

    /// Uses the given wavelet scales.
    pub fn scales(self, scales: Vec<usize>) -> (b: Self)
        ensures
            b.spec_input() == self.spec_input(),
            b.spec_params() == (CwtBrParams { scales: Some(scales), ..self.spec_params() }),
    {
        let mut params = self.params;
        params.scales = Some(scales);
        CwtBrBuilder { y: self.y, params }
    }

    /// Selects the wavelet scales from the signal length.
    pub fn auto_scales(self) -> (b: Self)
        ensures
            b.spec_input() == self.spec_input(),
            b.spec_params() == (CwtBrParams { scales: None, ..self.spec_params() }),
    {
        let mut params = self.params;
        params.scales = None;
        CwtBrBuilder { y: self.y, params }
    }
}

} // verus!

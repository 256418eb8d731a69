//! Builders for row-major two-dimensional surfaces.

use vstd::prelude::*;
use crate::two_d::morphology::{Imor2DParams, Morphology2DParams};
use crate::two_d::optimizers::IndividualAxes2DParams;
use crate::whittaker::{AslsParams, WhittakerParams};

verus! {

/// Builder for the improved two-dimensional morphology baseline of a surface `I`.
#[derive(Debug, Clone, Copy)]
pub struct Imor2DBuilder<I, R> {
    input: I,
    params: Imor2DParams<R>,
}

impl<I, R> Imor2DBuilder<I, R> {
    /// The surface the builder fits.
    pub closed spec fn spec_input(&self) -> I {
        self.input
    }

    /// The parameters the builder will fit with.
    pub closed spec fn spec_params(&self) -> Imor2DParams<R> {
        self.params
    }

    /// Creates a builder for `input` with the given parameters.
    pub fn new(input: I, params: Imor2DParams<R>) -> (b: Self)
        ensures
            b.spec_input() == input,
            b.spec_params() == params,
    {
        Imor2DBuilder { input, params }
    }

    /// Replaces all parameters.
    pub fn with_params(self, params: Imor2DParams<R>) -> (b: Self)
        ensures
            b.spec_input() == self.spec_input(),
            b.spec_params() == params,
    {
        Imor2DBuilder { input: self.input, params }
    }

    /// The parameters the builder will fit with.
    pub fn params(&self) -> (p: &Imor2DParams<R>)
        ensures
            *p == self.spec_params(),
    {
        &self.params
    }

    /// The surface the builder fits.
    pub fn input(&self) -> (i: &I)
        ensures
            *i == self.spec_input(),
    {
        &self.input
    }

    /// Sets the full window row count.
    pub fn window_rows(self, value: usize) -> (b: Self)
        ensures
            b.spec_input() == self.spec_input(),
            b.spec_params() == (Imor2DParams {
                morphology: Morphology2DParams { window_rows: value, ..self.spec_params().morphology },
                ..self.spec_params()
            }),
    {
        let mut params = self.params;
        params.morphology.window_rows = value;
        Imor2DBuilder { input: self.input, params }
    }

    /// Sets the full window column count.
    pub fn window_cols(self, value: usize) -> (b: Self)
        ensures
            b.spec_input() == self.spec_input(),
            b.spec_params() == (Imor2DParams {
                morphology: Morphology2DParams { window_cols: value, ..self.spec_params().morphology },
                ..self.spec_params()
            }),
    {
        let mut params = self.params;
        params.morphology.window_cols = value;
        Imor2DBuilder { input: self.input, params }
    }

    /// Sets the maximum number of update iterations.
    pub fn max_iter(self, value: usize) -> (b: Self)
        ensures
            b.spec_input() == self.spec_input(),
            b.spec_params() == (Imor2DParams { max_iter: value, ..self.spec_params() }),
    {
        let mut params = self.params;
        params.max_iter = value;
        Imor2DBuilder { input: self.input, params }
    }

    /// Sets the relative baseline-change tolerance.
    pub fn tol(self, value: R) -> (b: Self)
        ensures
            b.spec_input() == self.spec_input(),
            b.spec_params() == (Imor2DParams { tol: value, ..self.spec_params() }),
    {
        let mut params = self.params;
        params.tol = value;
        Imor2DBuilder { input: self.input, params }
    }
}

/// Builder for the two-dimensional fit along each axis of a surface `I`.
#[derive(Debug, Clone, Copy)]
pub struct IndividualAxes2DBuilder<I, R> {
    input: I,
    params: IndividualAxes2DParams<R>,
}

impl<I, R> IndividualAxes2DBuilder<I, R> {
    /// The surface the builder fits.
    pub closed spec fn spec_input(&self) -> I {
        self.input
    }

    /// The parameters the builder will fit with.
    pub closed spec fn spec_params(&self) -> IndividualAxes2DParams<R> {
        self.params
    }

    /// Creates a builder for `input` with the given parameters.
    pub fn new(input: I, params: IndividualAxes2DParams<R>) -> (b: Self)
        ensures
            b.spec_input() == input,
            b.spec_params() == params,
    {
        IndividualAxes2DBuilder { input, params }
    }

    /// Replaces all parameters.
    pub fn with_params(self, params: IndividualAxes2DParams<R>) -> (b: Self)
        ensures
            b.spec_input() == self.spec_input(),
            b.spec_params() == params,
    {
        IndividualAxes2DBuilder { input: self.input, params }
    }

    /// The parameters the builder will fit with.
    pub fn params(&self) -> (p: &IndividualAxes2DParams<R>)
        ensures
            *p == self.spec_params(),
    {
        &self.params
    }

    /// The surface the builder fits.
    pub fn input(&self) -> (i: &I)
        ensures
            *i == self.spec_input(),
    {
        &self.input
    }

    /// Sets the AsLS parameters used for each row and column pass.
    pub fn asls_params(self, asls: AslsParams<R>) -> (b: Self)
        ensures
            b.spec_input() == self.spec_input(),
            b.spec_params() == (IndividualAxes2DParams { asls }),
    {
        IndividualAxes2DBuilder { input: self.input, params: IndividualAxes2DParams { asls } }
    }

    /// Sets the smoothness penalty of each pass.
    pub fn lambda(self, value: R) -> (b: Self)
        ensures
            b.spec_input() == self.spec_input(),
            b.spec_params().asls.p == self.spec_params().asls.p,
            b.spec_params().asls.whittaker == (WhittakerParams { lambda: value, ..self.spec_params().asls.whittaker }),
    {
        let mut params = self.params;
        params.asls.whittaker.lambda = value;
        IndividualAxes2DBuilder { input: self.input, params }
    }

    /// Sets the maximum number of reweighting iterations of each pass.
    pub fn max_iter(self, value: usize) -> (b: Self)
        ensures
            b.spec_input() == self.spec_input(),
            b.spec_params().asls.p == self.spec_params().asls.p,
            b.spec_params().asls.whittaker == (WhittakerParams { max_iter: value, ..self.spec_params().asls.whittaker }),
    {
        let mut params = self.params;
        params.asls.whittaker.max_iter = value;
        IndividualAxes2DBuilder { input: self.input, params }
    }

    /// Sets the relative weight-change tolerance of each pass.
    pub fn tol(self, value: R) -> (b: Self)
        ensures
            b.spec_input() == self.spec_input(),
            b.spec_params().asls.p == self.spec_params().asls.p,
            b.spec_params().asls.whittaker == (WhittakerParams { tol: value, ..self.spec_params().asls.whittaker }),
    {
        let mut params = self.params;
        params.asls.whittaker.tol = value;
        IndividualAxes2DBuilder { input: self.input, params }
    }

    /// Sets the asymmetry weight of each pass.
    pub fn p(self, value: R) -> (b: Self)
        ensures
            b.spec_input() == self.spec_input(),
            b.spec_params().asls == (AslsParams { p: value, ..self.spec_params().asls }),
    {
        let mut params = self.params;
        params.asls.p = value;
        IndividualAxes2DBuilder { input: self.input, params }
    }
}

} // verus!

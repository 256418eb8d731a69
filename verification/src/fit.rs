//! Fit outputs and convergence metadata.
//!
//! Baseline values and tolerances are real numbers of the number type `R`,
//! which the numeric code instantiates with `f64`.

use vstd::prelude::*;
use crate::data::{shape_error, valid_shape, validate_matrix_len};
use crate::error::{BaselineError, Result};

verus! {

/// Metadata describing a baseline fit.
#[derive(Debug, Clone, Copy, PartialEq)]
pub struct FitReport<R> {
    /// Number of iterations performed.
    pub iterations: usize,
    /// Whether the algorithm met its convergence tolerance.
    pub converged: bool,
    /// Final convergence metric reported by the algorithm.
    pub tolerance: R,
}

impl<R> FitReport<R> {
    /// Creates a convergence report.
    pub fn new(iterations: usize, converged: bool, tolerance: R) -> (r: Self)
        ensures
            r == (FitReport { iterations, converged, tolerance }),
    {
        FitReport { iterations, converged, tolerance }
    }
}

/// One-dimensional baseline output with convergence metadata.
#[derive(Debug, Clone, PartialEq)]
pub struct Fit1D<R> {
    /// Estimated baseline.
    pub baseline: Vec<R>,
    /// Fit metadata.
    pub report: FitReport<R>,
}

/// Short name for one-dimensional fit output.
pub type Fit<R> = Fit1D<R>;

/// Two-dimensional row-major baseline output with convergence metadata.
#[derive(Debug, Clone, PartialEq)]
pub struct Fit2D<R> {
    /// Estimated row-major baseline.
    pub baseline: Vec<R>,
    /// Number of matrix rows.
    pub rows: usize,
    /// Number of matrix columns.
    pub cols: usize,
    /// Fit metadata.
    pub report: FitReport<R>,
}

impl<R> Fit2D<R> {
    /// Creates a two-dimensional fit after validating the baseline length.
    pub fn new(baseline: Vec<R>, rows: usize, cols: usize, report: FitReport<R>) -> (res: Result<Self>)
        ensures
            !valid_shape(rows as int, cols as int) ==> res == Err::<Self, BaselineError>(shape_error(rows as int, cols as int)),
            valid_shape(rows as int, cols as int) && rows * cols != baseline@.len() ==> res == Err::<Self, BaselineError>(
                BaselineError::LengthMismatch { name: "baseline", expected: (rows * cols) as usize, actual: baseline@.len() as usize },
            ),
            valid_shape(rows as int, cols as int) && rows * cols == baseline@.len() ==> res == Ok::<Self, BaselineError>(
                Fit2D { baseline, rows, cols, report },
            ),
    {
        match validate_matrix_len("baseline", rows, cols, baseline.len()) {
            Ok(()) => Ok(Fit2D { baseline, rows, cols, report }),
            Err(e) => Err(e),
        }
    }

    /// Returns the number of baseline elements.
    pub fn len(&self) -> (n: usize)
        ensures
            n == self.baseline@.len(),
    {
        self.baseline.len()
    }

    /// Returns whether the baseline has no elements.
    pub fn is_empty(&self) -> (b: bool)
        ensures
            b == (self.baseline@.len() == 0),
    {
        self.baseline.len() == 0
    }

    /// Returns the matrix shape as `(rows, cols)`.
    pub fn shape(&self) -> (s: (usize, usize))
        ensures
            s == (self.rows, self.cols),
    {
        (self.rows, self.cols)
    }
}

} // verus!

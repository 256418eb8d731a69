//! Parameters of the polynomial baselines and the classification of their
//! non-quadratic cost functions.

use vstd::prelude::*;

verus! {

/// Parameters for a direct polynomial baseline fit.
#[derive(Debug, Clone, Copy, PartialEq, Eq, Structural)]
pub struct PolyParams {
    /// Polynomial order.
    pub order: usize,
}

impl Default for PolyParams {
    fn default() -> (p: Self)
        ensures
            p.order == 2,
    {
        PolyParams { order: 2 }
    }
}

/// Non-quadratic cost function used by penalized polynomial fitting.
#[derive(Debug, Clone, Copy, PartialEq, Eq, Structural)]
pub enum PenalizedCost {
    /// Asymmetric truncated quadratic loss.
    AsymmetricTruncatedQuadratic,
    /// Symmetric truncated quadratic loss.
    SymmetricTruncatedQuadratic,
    /// Asymmetric Huber loss.
    AsymmetricHuber,
    /// Symmetric Huber loss.
    SymmetricHuber,
    /// Asymmetric Indec loss.
    AsymmetricIndec,
    /// Symmetric Indec loss.
    SymmetricIndec,
}

impl PenalizedCost {
    /// Whether the loss only penalizes residuals on one side of the baseline.
    pub open spec fn spec_is_asymmetric(self) -> bool {
        self is AsymmetricTruncatedQuadratic || self is AsymmetricHuber || self is AsymmetricIndec
    }

    /// Returns whether the loss is one of the asymmetric variants.
    pub fn is_asymmetric(self) -> (b: bool)
        ensures
            b == self.spec_is_asymmetric(),
    {
        match self {
            PenalizedCost::AsymmetricTruncatedQuadratic
            | PenalizedCost::AsymmetricHuber
            | PenalizedCost::AsymmetricIndec => true,
            _ => false,
        }
    }
}

/// Parameters for LOESS baseline fitting.
#[derive(Debug, Clone, Copy, PartialEq, Eq, Structural)]
pub struct LoessParams {
    /// Local regression window size.
    pub window_size: usize,
}

impl Default for LoessParams {
    fn default() -> (p: Self)
        ensures
            p.window_size == 31,
    {
        LoessParams { window_size: 31 }
    }
}

} // verus!

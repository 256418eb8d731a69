//! Error type shared by the baseline correction routines.

use vstd::prelude::*;

verus! {

/// Errors returned by baseline algorithms.
#[derive(Debug, Clone, PartialEq)]
pub enum BaselineError {
    /// The input signal had no samples.
    EmptyInput,
    /// The input signal is too short for the requested algorithm.
    TooShort {
        /// Algorithm name.
        algorithm: &'static str,
        /// Observed input length.
        len: usize,
        /// Minimum accepted input length.
        min: usize,
    },
    /// A slice length did not match the expected length.
    LengthMismatch {
        /// Slice or buffer name.
        name: &'static str,
        /// Expected length.
        expected: usize,
        /// Actual length.
        actual: usize,
    },
    /// A numeric parameter was invalid.
    InvalidParameter {
        /// Parameter name.
        name: &'static str,
        /// Explanation.
        reason: &'static str,
    },
    /// An input value was not finite.
    NonFiniteInput {
        /// Index of the invalid value.
        index: usize,
    },
    /// A linear system could not be solved.
    LinearSolve {
        /// Explanation.
        reason: &'static str,
    },
    /// A requested backend or operation is not available.
    Unsupported {
        /// Feature or backend name.
        feature: &'static str,
        /// Explanation.
        reason: &'static str,
    },
}

/// Result alias used throughout the crate.
pub type Result<T> = core::result::Result<T, BaselineError>;

} // verus!

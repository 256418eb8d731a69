//! Shape checks of the CPU batch routines, which run a one-dimensional
//! baseline over each contiguous spectrum of a row-major batch.

use vstd::prelude::*;
use crate::error::{BaselineError, Result};
use crate::workspace::{validate_output, validate_signal_scan};

verus! {

/// The outcome of checking a batch of `n_spectra` spectra of `n_points`
/// samples each: a degenerate batch must still pass the signal check of its
/// input, then the input and the output must each hold exactly
/// `n_spectra * n_points` samples.
pub open spec fn batch_check(
    n_spectra: nat,
    n_points: nat,
    input_len: nat,
    output_len: nat,
    first_non_finite: Option<usize>,
) -> Result<()> {
    let expected = n_spectra * n_points;
    if (n_spectra == 0 || n_points == 0) && input_len == 0 {
        Err(BaselineError::EmptyInput)
    } else if (n_spectra == 0 || n_points == 0) && first_non_finite is Some {
        Err(BaselineError::NonFiniteInput { index: first_non_finite->0 })
    } else if expected != input_len {
        Err(BaselineError::LengthMismatch { name: "input", expected: expected as usize, actual: input_len as usize })
    } else if expected != output_len {
        Err(BaselineError::LengthMismatch { name: "output", expected: expected as usize, actual: output_len as usize })
    } else {
        Ok(())
    }
}

/// A CPU batch is accepted exactly when it splits into whole spectra: both
/// counts are positive and the input and the output each hold
/// `n_spectra * n_points` samples. A degenerate batch is always refused.
pub proof fn lemma_batch_accepts_exact_shapes(
    n_spectra: nat,
    n_points: nat,
    input_len: nat,
    output_len: nat,
    first_non_finite: Option<usize>,
)
    ensures
        batch_check(n_spectra, n_points, input_len, output_len, first_non_finite) is Ok <==> (n_spectra > 0
            && n_points > 0 && n_spectra * n_points == input_len && input_len == output_len),
{
    if n_spectra == 0 || n_points == 0 {
        assert(n_spectra * n_points == 0) by (nonlinear_arith)
            requires
                n_spectra == 0 || n_points == 0,
        ;
    }
}


/// Checks a batch of `n_spectra` spectra of `n_points` samples; the input
/// holds `input_len` samples, the first non-finite one at `first_non_finite`,
/// and the output buffer holds `output_len`.
pub fn validate_batch(
    n_spectra: usize,
    n_points: usize,
    input_len: usize,
    output_len: usize,
    first_non_finite: Option<usize>,
) -> (res: Result<()>)
    requires
        n_spectra * n_points <= usize::MAX,
    ensures
        res == batch_check(n_spectra as nat, n_points as nat, input_len as nat, output_len as nat, first_non_finite),
        res is Ok <==> (n_spectra > 0 && n_points > 0 && n_spectra * n_points == input_len && input_len == output_len),
{
    proof {
        lemma_batch_accepts_exact_shapes(
            n_spectra as nat,
            n_points as nat,
            input_len as nat,
            output_len as nat,
            first_non_finite,
        );
    }
    if n_spectra == 0 || n_points == 0 {
        match validate_signal_scan(input_len, first_non_finite) {
            Ok(()) => {},
            Err(e) => return Err(e),
        }
    }
    let expected = n_spectra * n_points;
    match validate_output("input", expected, input_len) {
        Ok(()) => {},
        Err(e) => return Err(e),
    }
    validate_output("output", expected, output_len)
}

} // verus!

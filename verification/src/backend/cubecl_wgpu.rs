//! Checks the batched GPU morphology kernels run on their arguments before
//! any device work: the batch of `f32` spectra and the window size.

use vstd::prelude::*;
use crate::error::{BaselineError, Result};

verus! {

/// The outcome of checking a device batch of `input_len` samples, the first
/// non-finite one at `first_non_finite`, split into `n_spectra` spectra of
/// `n_points` samples.
pub open spec fn device_batch_check(
    input_len: nat,
    first_non_finite: Option<usize>,
    n_spectra: nat,
    n_points: nat,
) -> Result<()> {
    if input_len == 0 {
        Err(BaselineError::EmptyInput)
    } else if first_non_finite is Some {
        Err(BaselineError::NonFiniteInput { index: first_non_finite->0 })
    } else if n_spectra == 0 || n_points == 0 {
        Err(BaselineError::InvalidParameter {
            name: "batch_shape",
            reason: "n_spectra and n_points must be greater than zero",
        })
    } else if n_spectra * n_points > usize::MAX {
        Err(BaselineError::InvalidParameter { name: "batch_shape", reason: "n_spectra * n_points overflowed" })
    } else if n_spectra * n_points != input_len {
        Err(BaselineError::LengthMismatch {
            name: "input",
            expected: (n_spectra * n_points) as usize,
            actual: input_len as usize,
        })
    } else {
        Ok(())
    }
}

/// A device batch is accepted exactly when it holds only finite samples and
/// splits into whole spectra: `n_spectra` and `n_points` are positive and
/// their product is the number of samples.
pub proof fn lemma_device_batch_accepts_exact_shapes(
    input_len: nat,
    first_non_finite: Option<usize>,
    n_spectra: nat,
    n_points: nat,
)
    requires
        input_len <= usize::MAX,
    ensures
        device_batch_check(input_len, first_non_finite, n_spectra, n_points) is Ok <==> (first_non_finite is None
            && n_spectra > 0 && n_points > 0 && n_spectra * n_points == input_len),
{
    if n_spectra > 0 && n_points > 0 && n_spectra * n_points == input_len {
        assert(input_len > 0) by (nonlinear_arith)
            requires
                n_spectra > 0,
                n_points > 0,
                n_spectra * n_points == input_len,
        ;
    }
}


/// Checks a device batch before a kernel launch.
pub fn validate_batch(
    input_len: usize,
    first_non_finite: Option<usize>,
    n_spectra: usize,
    n_points: usize,
) -> (res: Result<()>)
    ensures
        res == device_batch_check(input_len as nat, first_non_finite, n_spectra as nat, n_points as nat),
        res is Ok <==> (first_non_finite is None && n_spectra > 0 && n_points > 0 && n_spectra * n_points == input_len),
{
    proof {
        lemma_device_batch_accepts_exact_shapes(input_len as nat, first_non_finite, n_spectra as nat, n_points as nat);
    }
    if input_len == 0 {
        return Err(BaselineError::EmptyInput);
    }
    if let Some(index) = first_non_finite {
        return Err(BaselineError::NonFiniteInput { index });
    }
    if n_spectra == 0 || n_points == 0 {
        return Err(BaselineError::InvalidParameter {
            name: "batch_shape",
            reason: "n_spectra and n_points must be greater than zero",
        });
    }
    let expected = match n_spectra.checked_mul(n_points) {
        Some(expected) => expected,
        None => {
            return Err(BaselineError::InvalidParameter {
                name: "batch_shape",
                reason: "n_spectra * n_points overflowed",
            })
        },
    };
    if expected != input_len {
        return Err(BaselineError::LengthMismatch { name: "input", expected, actual: input_len });
    }
    Ok(())
}

/// Rejects a zero moving-window size.
pub fn validate_window_size(window_size: usize) -> (res: Result<()>)
    ensures
        window_size == 0 ==> res == Err::<(), BaselineError>(BaselineError::InvalidParameter {
            name: "window_size",
            reason: "must be greater than zero",
        }),
        window_size > 0 ==> res == Ok::<(), BaselineError>(()),
{
    if window_size == 0 {
        return Err(BaselineError::InvalidParameter { name: "window_size", reason: "must be greater than zero" });
    }
    Ok(())
}

} // verus!

//! Checks shared by the routines that read a signal and fill a buffer.

use vstd::prelude::*;
use crate::error::{BaselineError, Result};

verus! {

/// Rejects an output buffer whose length differs from the expected one.
pub fn validate_output(name: &'static str, expected: usize, actual: usize) -> (res: Result<()>)
    ensures
        expected == actual ==> res == Ok::<(), BaselineError>(()),
        expected != actual ==> res == Err::<(), BaselineError>(BaselineError::LengthMismatch { name, expected, actual }),
{
    if expected != actual {
        return Err(BaselineError::LengthMismatch { name, expected, actual });
    }
    Ok(())
}

/// Whether none of the first `upto` checks `(name, expected, actual)` has a
/// length that differs from the expected one.
pub open spec fn lengths_match_before(checks: Seq<(&'static str, usize, usize)>, upto: int) -> bool {
    forall|k: int| 0 <= k < upto ==> (#[trigger] checks[k]).1 == checks[k].2
}

/// Checks buffer lengths in order: each entry is a buffer's name, its
/// expected length and its actual length. The first mismatch is reported.
pub fn validate_lengths(checks: &[(&'static str, usize, usize)]) -> (res: Result<()>)
    ensures
        res is Ok <==> lengths_match_before(checks@, checks@.len() as int),
        res is Err ==> exists|k: int|
            0 <= k < checks@.len() && lengths_match_before(checks@, k) && (#[trigger] checks@[k]).1 != checks@[k].2
                && res == Err::<(), BaselineError>(BaselineError::LengthMismatch {
                name: checks@[k].0,
                expected: checks@[k].1,
                actual: checks@[k].2,
            }),
{
    let mut i: usize = 0;
    while i < checks.len()
        invariant
            i <= checks@.len(),
            lengths_match_before(checks@, i as int),
        decreases checks@.len() - i,
    {
        let (name, expected, actual) = checks[i];
        if expected != actual {
            return Err(BaselineError::LengthMismatch { name, expected, actual });
        }
        i = i + 1;
    }
    Ok(())
}

/// Rejects an input of `len` samples that is shorter than `min`, the least
/// length `algorithm` accepts.
pub fn validate_min_len(algorithm: &'static str, len: usize, min: usize) -> (res: Result<()>)
    ensures
        len < min ==> res == Err::<(), BaselineError>(BaselineError::TooShort { algorithm, len, min }),
        len >= min ==> res == Ok::<(), BaselineError>(()),
{
    if len < min {
        return Err(BaselineError::TooShort { algorithm, len, min });
    }
    Ok(())
}

/// Accepts a signal of `len` samples unless it is empty or, by the scan
/// `first_non_finite`, holds a non-finite sample at that index.
pub fn validate_signal_scan(len: usize, first_non_finite: Option<usize>) -> (res: Result<()>)
    ensures
        len == 0 ==> res == Err::<(), BaselineError>(BaselineError::EmptyInput),
        len > 0 && first_non_finite is Some ==> res == Err::<(), BaselineError>(
            BaselineError::NonFiniteInput { index: first_non_finite->0 },
        ),
        len > 0 && first_non_finite is None ==> res == Ok::<(), BaselineError>(()),
{
    if len == 0 {
        return Err(BaselineError::EmptyInput);
    }
    match first_non_finite {
        Some(index) => Err(BaselineError::NonFiniteInput { index }),
        None => Ok(()),
    }
}

} // verus!

//! Shape checks of the general (nonsymmetric) pentadiagonal systems.

use vstd::prelude::*;
use crate::error::{BaselineError, Result};

verus! {

/// Borrowed diagonals of a general nonsymmetric pentadiagonal system with
/// entries of type `T`.
pub struct GeneralPentadiagonalSystem<'a, T> {
    /// Second lower diagonal, where `lower2[i] = A[i + 2, i]`.
    pub lower2: &'a [T],
    /// First lower diagonal, where `lower1[i] = A[i + 1, i]`.
    pub lower1: &'a [T],
    /// Main diagonal.
    pub diag: &'a [T],
    /// First upper diagonal, where `upper1[i] = A[i, i + 1]`.
    pub upper1: &'a [T],
    /// Second upper diagonal, where `upper2[i] = A[i, i + 2]`.
    pub upper2: &'a [T],
}

/// `n - k`, or zero where `k` exceeds `n`.
pub open spec fn off_diagonal_len(n: nat, k: nat) -> nat {
    if n >= k { (n - k) as nat } else { 0 }
}

/// The outcome of checking a system of order `n`: an empty system is
/// refused, then the first of `lower2`, `lower1`, `upper1`, `upper2`, `rhs`
/// and `output`, in that order, whose length is not `n` less its distance
/// from the main diagonal is reported.
pub open spec fn general_band_length_result(
    n: nat,
    lower2: nat,
    lower1: nat,
    upper1: nat,
    upper2: nat,
    rhs: nat,
    output: nat,
) -> Result<()> {
    let near = off_diagonal_len(n, 1);
    let far = off_diagonal_len(n, 2);
    if n == 0 {
        Err(BaselineError::EmptyInput)
    } else if lower2 != far {
        Err(BaselineError::LengthMismatch { name: "lower2", expected: far as usize, actual: lower2 as usize })
    } else if lower1 != near {
        Err(BaselineError::LengthMismatch { name: "lower1", expected: near as usize, actual: lower1 as usize })
    } else if upper1 != near {
        Err(BaselineError::LengthMismatch { name: "upper1", expected: near as usize, actual: upper1 as usize })
    } else if upper2 != far {
        Err(BaselineError::LengthMismatch { name: "upper2", expected: far as usize, actual: upper2 as usize })
    } else if rhs != n {
        Err(BaselineError::LengthMismatch { name: "rhs", expected: n as usize, actual: rhs as usize })
    } else if output != n {
        Err(BaselineError::LengthMismatch { name: "output", expected: n as usize, actual: output as usize })
    } else {
        Ok(())
    }
}

/// Whether the lengths fit a non-empty `n` by `n` pentadiagonal system: each
/// off-diagonal `k` places from the main one holds `n - k` entries (none
/// when `k` exceeds `n`), and the right-hand side and the output hold `n`.
pub open spec fn well_shaped_pentadiagonal(
    n: int,
    lower2: int,
    lower1: int,
    upper1: int,
    upper2: int,
    rhs: int,
    output: int,
) -> bool {
    &&& n > 0
    &&& lower1 + 1 == n && upper1 + 1 == n
    &&& (lower2 + 2 == n || (n == 1 && lower2 == 0))
    &&& (upper2 + 2 == n || (n == 1 && upper2 == 0))
    &&& rhs == n && output == n
}

/// The length check accepts a system exactly when its lengths fit an `n` by
/// `n` pentadiagonal system.
pub proof fn lemma_general_band_lengths_accept_exactly_well_shaped(
    n: nat,
    lower2: nat,
    lower1: nat,
    upper1: nat,
    upper2: nat,
    rhs: nat,
    output: nat,
)
    ensures
        general_band_length_result(n, lower2, lower1, upper1, upper2, rhs, output) is Ok
            <==> well_shaped_pentadiagonal(
            n as int,
            lower2 as int,
            lower1 as int,
            upper1 as int,
            upper2 as int,
            rhs as int,
            output as int,
        ),
{
}


/// Checks that the diagonals, the right-hand side and the output of a
/// system fit its main diagonal.
pub fn validate_general_band_lengths<T>(
    system: &GeneralPentadiagonalSystem<'_, T>,
    rhs: &[T],
    output: &[T],
) -> (res: Result<()>)
    ensures
        res == general_band_length_result(
            system.diag@.len(),
            system.lower2@.len(),
            system.lower1@.len(),
            system.upper1@.len(),
            system.upper2@.len(),
            rhs@.len(),
            output@.len(),
        ),
        res is Ok <==> well_shaped_pentadiagonal(
            system.diag@.len() as int,
            system.lower2@.len() as int,
            system.lower1@.len() as int,
            system.upper1@.len() as int,
            system.upper2@.len() as int,
            rhs@.len() as int,
            output@.len() as int,
        ),
{
    proof {
        lemma_general_band_lengths_accept_exactly_well_shaped(
            system.diag@.len(),
            system.lower2@.len(),
            system.lower1@.len(),
            system.upper1@.len(),
            system.upper2@.len(),
            rhs@.len(),
            output@.len(),
        );
    }
    let n = system.diag.len();
    if n == 0 {
        return Err(BaselineError::EmptyInput);
    }
    let far = if n >= 2 { n - 2 } else { 0 };
    let near = n - 1;
    if system.lower2.len() != far {
        return Err(BaselineError::LengthMismatch { name: "lower2", expected: far, actual: system.lower2.len() });
    }
    if system.lower1.len() != near {
        return Err(BaselineError::LengthMismatch { name: "lower1", expected: near, actual: system.lower1.len() });
    }
    if system.upper1.len() != near {
        return Err(BaselineError::LengthMismatch { name: "upper1", expected: near, actual: system.upper1.len() });
    }
    if system.upper2.len() != far {
        return Err(BaselineError::LengthMismatch { name: "upper2", expected: far, actual: system.upper2.len() });
    }
    if rhs.len() != n {
        return Err(BaselineError::LengthMismatch { name: "rhs", expected: n, actual: rhs.len() });
    }
    if output.len() != n {
        return Err(BaselineError::LengthMismatch { name: "output", expected: n, actual: output.len() });
    }
    Ok(())
}

} // verus!

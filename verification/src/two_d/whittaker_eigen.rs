//! Checks on the number of eigenvectors kept by the reduced eigenspace
//! two-dimensional Whittaker solvers.

use vstd::prelude::*;
use crate::error::{BaselineError, Result};

verus! {

/// Accepts a count of kept eigenvectors that is at most the number of points
/// along the axis and greater than the difference order.
pub fn validate_num_eigens(name: &'static str, value: usize, points: usize, diff_order: usize) -> (res: Result<()>)
    ensures
        value > points ==> res == Err::<(), BaselineError>(BaselineError::InvalidParameter {
            name,
            reason: "must not be greater than the number of points",
        }),
        value <= points && value <= diff_order ==> res == Err::<(), BaselineError>(
            BaselineError::InvalidParameter { name, reason: "must be greater than the difference order" },
        ),
        diff_order < value <= points ==> res == Ok::<(), BaselineError>(()),
{
    if value > points {
        return Err(BaselineError::InvalidParameter { name, reason: "must not be greater than the number of points" });
    }
    if value <= diff_order {
        return Err(BaselineError::InvalidParameter { name, reason: "must be greater than the difference order" });
    }
    Ok(())
}

} // verus!

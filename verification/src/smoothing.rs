//! Parameters of the moving-window smoothing baselines and the edge
//! reflection used by their convolutions.

use vstd::prelude::*;
use crate::classification::reflect_pad;
use crate::error::{BaselineError, Result};

verus! {

/// Parameters for moving-window smoothing methods.
#[derive(Debug, Clone, Copy, PartialEq, Eq, Structural)]
pub struct SmoothingParams {
    /// Moving-window size.
    pub window_size: usize,
    /// Maximum number of iterative smoothing passes.
    pub max_iter: usize,
}

impl Default for SmoothingParams {
    fn default() -> (p: Self)
        ensures
            p.window_size == 31,
            p.max_iter == 20,
    {
        SmoothingParams { window_size: 31, max_iter: 20 }
    }
}

impl SmoothingParams {
    /// Rejects a zero window and a zero iteration count, in that order.
    pub fn validate(&self) -> (res: Result<()>)
        ensures
            self.window_size == 0 ==> res == Err::<(), BaselineError>(BaselineError::InvalidParameter {
                name: "window_size",
                reason: "must be greater than zero",
            }),
            self.window_size > 0 && self.max_iter == 0 ==> res == Err::<(), BaselineError>(
                BaselineError::InvalidParameter { name: "max_iter", reason: "must be greater than zero" },
            ),
            self.window_size > 0 && self.max_iter > 0 ==> res == Ok::<(), BaselineError>(()),
    {
        if self.window_size == 0 {
            return Err(BaselineError::InvalidParameter { name: "window_size", reason: "must be greater than zero" });
        }
        if self.max_iter == 0 {
            return Err(BaselineError::InvalidParameter { name: "max_iter", reason: "must be greater than zero" });
        }
        Ok(())
    }
}

/// Maps `index` into `[0, len)` by reflecting about the edge samples without
/// repeating them.
pub fn reflect_index(index: isize, len: usize) -> (r: usize)
    requires
        2 * len <= isize::MAX,
    ensures
        r == reflect_pad(index as int, len as int),
        len >= 1 ==> r < len,
{
    if len <= 1 {
        return 0;
    }
    let period = 2 * (len as isize) - 2;
    let mut reflected = match index.checked_rem_euclid(period) {
        Some(v) => v,
        None => 0,
    };
    proof {
        vstd::arithmetic::div_mod::lemma_mod_bound(index as int, period as int);
    }
    if reflected >= len as isize {
        reflected = period - reflected;
    }
    reflected as usize
}

} // verus!

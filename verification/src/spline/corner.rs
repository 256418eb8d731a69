//! Parameters of corner-cutting baseline construction.

use vstd::prelude::*;
use crate::error::{BaselineError, Result};

verus! {

/// Parameters for corner-cutting baselines.
#[derive(Debug, Clone, Copy, PartialEq, Eq, Structural)]
pub struct CornerCuttingParams {
    /// Maximum number of corner-removal iterations.
    pub max_iter: usize,
}

impl Default for CornerCuttingParams {
    fn default() -> (p: Self)
        ensures
            p.max_iter == 100,
    {
        CornerCuttingParams { max_iter: 100 }
    }
}

impl CornerCuttingParams {
    /// Rejects a zero iteration count.
    pub fn validate(&self) -> (res: Result<()>)
        ensures
            self.max_iter > 0 ==> res == Ok::<(), BaselineError>(()),
            self.max_iter == 0 ==> res == Err::<(), BaselineError>(BaselineError::InvalidParameter {
                name: "max_iter",
                reason: "must be greater than zero",
            }),
    {
        if self.max_iter == 0 {
            return Err(BaselineError::InvalidParameter { name: "max_iter", reason: "must be greater than zero" });
        }
        Ok(())
    }
}

} // verus!

//! Parameters of the window-based morphology baselines (rolling ball,
//! top-hat, moving-window minimum, opening/closing envelopes) and of SNIP.

use vstd::prelude::*;
use crate::error::{BaselineError, Result};

verus! {

/// Parameters for window-based morphology baselines.
#[derive(Debug, Clone, Copy, PartialEq, Eq, Structural)]
pub struct MorphologyParams {
    /// Full moving-window size. Even values are rounded up internally.
    pub window_size: usize,
}

impl Default for MorphologyParams {
    fn default() -> (p: Self)
        ensures
            p.window_size == 31,
    {
        MorphologyParams { window_size: 31 }
    }
}

impl MorphologyParams {
    /// Rejects a zero window.
    pub fn validate(&self) -> (res: Result<()>)
        ensures
            self.window_size > 0 ==> res == Ok::<(), BaselineError>(()),
            self.window_size == 0 ==> res == Err::<(), BaselineError>(BaselineError::InvalidParameter {
                name: "window_size",
                reason: "must be greater than zero",
            }),
    {
        if self.window_size == 0 {
            return Err(BaselineError::InvalidParameter { name: "window_size", reason: "must be greater than zero" });
        }
        Ok(())
    }

    /// The number of samples on each side of the window centre.
    pub fn radius(&self) -> (r: usize)
        ensures
            r == self.window_size / 2,
    {
        self.window_size / 2
    }
}

/// Parameters for SNIP baseline estimation.
#[derive(Debug, Clone, Copy, PartialEq, Eq, Structural)]
pub struct SnipParams {
    /// Number of clipping iterations.
    pub max_half_window: usize,
}

impl Default for SnipParams {
    fn default() -> (p: Self)
        ensures
            p.max_half_window == 40,
    {
        SnipParams { max_half_window: 40 }
    }
}

impl SnipParams {
    /// Rejects a zero clipping half-window.
    pub fn validate(&self) -> (res: Result<()>)
        ensures
            self.max_half_window > 0 ==> res == Ok::<(), BaselineError>(()),
            self.max_half_window == 0 ==> res == Err::<(), BaselineError>(BaselineError::InvalidParameter {
                name: "max_half_window",
                reason: "must be greater than zero",
            }),
    {
        if self.max_half_window == 0 {
            return Err(BaselineError::InvalidParameter {
                name: "max_half_window",
                reason: "must be greater than zero",
            });
        }
        Ok(())
    }
}

/// The window spans `2 * radius + 1` samples: the configured size when it is
/// odd, and the size rounded up to the next odd number when it is even.
pub proof fn lemma_window_rounded_up_to_odd(window_size: int)
    requires
        window_size >= 0,
    ensures
        2 * (window_size / 2) + 1 == (if window_size % 2 == 1 { window_size } else { window_size + 1 }),
{
}

} // verus!

//! Choice of penalty approximation for BEADS and the edge reflection used by
//! its derivative smoothing.

use vstd::prelude::*;
use crate::classification::reflect_pad;
use crate::error::{BaselineError, Result};

verus! {

/// Approximation used for the BEADS sparse absolute-value penalty.
#[derive(Debug, Clone, Copy, PartialEq, Eq, Structural)]
pub enum BeadsCostFunction {
    /// `sqrt(x^2 + eps_1)` approximation.
    L1V1,
    /// `abs(x) - eps_1 * log(abs(x) + eps_1)` approximation.
    L1V2,
}

/// Maps `index` into `[0, len)` by reflecting about the edge samples without
/// repeating them.
pub fn reflect_index(index: isize, len: usize) -> (r: usize)
    requires
        2 * len <= isize::MAX,
    ensures
        r == reflect_pad(index as int, len as int),
        len >= 1 ==> r < len,
{
    if len <= 1 {
        return 0;
    }
    let period = 2 * (len as isize) - 2;
    let mut value = match index.checked_rem_euclid(period) {
        Some(v) => v,
        None => 0,
    };
    proof {
        vstd::arithmetic::div_mod::lemma_mod_bound(index as int, period as int);
    }
    if value >= len as isize {
        value = period - value;
    }
    value as usize
}


/// The outcomes of the real-valued tests on the BEADS parameters, each `true`
/// when the parameter passes.
#[derive(Debug, Clone, Copy, PartialEq, Eq, Structural)]
pub struct BeadsRealChecks {
    /// The cutoff frequency is finite and strictly between 0 and 0.5.
    pub freq_cutoff: bool,
    /// The signal sparsity penalty is finite and non-negative.
    pub lam_0: bool,
    /// The first-derivative sparsity penalty is finite and non-negative.
    pub lam_1: bool,
    /// The second-derivative sparsity penalty is finite and non-negative.
    pub lam_2: bool,
    /// The asymmetry is finite and positive.
    pub asymmetry: bool,
    /// The tolerance is finite and positive.
    pub tol: bool,
    /// The loss threshold is finite and non-negative.
    pub eps_0: bool,
    /// The derivative smoothing constant is finite and non-negative.
    pub eps_1: bool,
}

/// The outcome of checking BEADS parameters: the first failing test, in the
/// order cutoff, the three penalties, asymmetry, filter type, iteration
/// count, tolerance, `eps_0`, `eps_1`.
pub open spec fn beads_params_check(checks: BeadsRealChecks, filter_type: usize, max_iter: usize) -> Result<()> {
    let finite_non_negative = "must be finite and non-negative";
    if !checks.freq_cutoff {
        Err(BaselineError::InvalidParameter { name: "freq_cutoff", reason: "must be finite and between 0 and 0.5" })
    } else if !checks.lam_0 {
        Err(BaselineError::InvalidParameter { name: "lam_0", reason: finite_non_negative })
    } else if !checks.lam_1 {
        Err(BaselineError::InvalidParameter { name: "lam_1", reason: finite_non_negative })
    } else if !checks.lam_2 {
        Err(BaselineError::InvalidParameter { name: "lam_2", reason: finite_non_negative })
    } else if !checks.asymmetry {
        Err(BaselineError::InvalidParameter { name: "asymmetry", reason: "must be finite and positive" })
    } else if filter_type != 1 {
        Err(BaselineError::Unsupported {
            feature: "beads.filter_type",
            reason: "only filter_type = 1 is currently implemented",
        })
    } else if max_iter == 0 {
        Err(BaselineError::InvalidParameter { name: "max_iter", reason: "must be greater than zero" })
    } else if !checks.tol {
        Err(BaselineError::InvalidParameter { name: "tol", reason: "must be finite and positive" })
    } else if !checks.eps_0 {
        Err(BaselineError::InvalidParameter { name: "eps_0", reason: finite_non_negative })
    } else if !checks.eps_1 {
        Err(BaselineError::InvalidParameter { name: "eps_1", reason: finite_non_negative })
    } else {
        Ok(())
    }
}

/// Whether every BEADS parameter passes: all real-valued tests, the only
/// implemented filter type, and at least one iteration.
pub open spec fn beads_params_pass(checks: BeadsRealChecks, filter_type: usize, max_iter: usize) -> bool {
    &&& checks.freq_cutoff && checks.lam_0 && checks.lam_1 && checks.lam_2
    &&& checks.asymmetry && checks.tol && checks.eps_0 && checks.eps_1
    &&& filter_type == 1
    &&& max_iter > 0
}

/// Whether the error `e` names a parameter whose test fails.
pub open spec fn error_names_failing_test(
    checks: BeadsRealChecks,
    filter_type: usize,
    max_iter: usize,
    e: BaselineError,
) -> bool {
    match e {
        BaselineError::InvalidParameter { name, .. } => {
            ||| name == "freq_cutoff" && !checks.freq_cutoff
            ||| name == "lam_0" && !checks.lam_0
            ||| name == "lam_1" && !checks.lam_1
            ||| name == "lam_2" && !checks.lam_2
            ||| name == "asymmetry" && !checks.asymmetry
            ||| name == "max_iter" && max_iter == 0
            ||| name == "tol" && !checks.tol
            ||| name == "eps_0" && !checks.eps_0
            ||| name == "eps_1" && !checks.eps_1
        },
        BaselineError::Unsupported { .. } => filter_type != 1,
        _ => false,
    }
}

/// The BEADS check accepts exactly the parameters that pass every test, and
/// each error it reports names a parameter that fails its test.
pub proof fn lemma_beads_check_accepts_exactly_passing(checks: BeadsRealChecks, filter_type: usize, max_iter: usize)
    ensures
        beads_params_check(checks, filter_type, max_iter) is Ok <==> beads_params_pass(checks, filter_type, max_iter),
        beads_params_check(checks, filter_type, max_iter) matches Err(e) ==> error_names_failing_test(
            checks,
            filter_type,
            max_iter,
            e,
        ),
{
}


/// Checks BEADS parameters, given the outcomes of the real-valued tests, the
/// filter type and the iteration count.
pub fn validate_beads_params(checks: BeadsRealChecks, filter_type: usize, max_iter: usize) -> (res: Result<()>)
    ensures
        res == beads_params_check(checks, filter_type, max_iter),
        res is Ok <==> beads_params_pass(checks, filter_type, max_iter),
        res matches Err(e) ==> error_names_failing_test(checks, filter_type, max_iter, e),
{
    proof {
        lemma_beads_check_accepts_exactly_passing(checks, filter_type, max_iter);
    }
    let finite_non_negative = "must be finite and non-negative";
    if !checks.freq_cutoff {
        return Err(BaselineError::InvalidParameter {
            name: "freq_cutoff",
            reason: "must be finite and between 0 and 0.5",
        });
    }
    if !checks.lam_0 {
        return Err(BaselineError::InvalidParameter { name: "lam_0", reason: finite_non_negative });
    }
    if !checks.lam_1 {
        return Err(BaselineError::InvalidParameter { name: "lam_1", reason: finite_non_negative });
    }
    if !checks.lam_2 {
        return Err(BaselineError::InvalidParameter { name: "lam_2", reason: finite_non_negative });
    }
    if !checks.asymmetry {
        return Err(BaselineError::InvalidParameter { name: "asymmetry", reason: "must be finite and positive" });
    }
    if filter_type != 1 {
        return Err(BaselineError::Unsupported {
            feature: "beads.filter_type",
            reason: "only filter_type = 1 is currently implemented",
        });
    }
    if max_iter == 0 {
        return Err(BaselineError::InvalidParameter { name: "max_iter", reason: "must be greater than zero" });
    }
    if !checks.tol {
        return Err(BaselineError::InvalidParameter { name: "tol", reason: "must be finite and positive" });
    }
    if !checks.eps_0 {
        return Err(BaselineError::InvalidParameter { name: "eps_0", reason: finite_non_negative });
    }
    if !checks.eps_1 {
        return Err(BaselineError::InvalidParameter { name: "eps_1", reason: finite_non_negative });
    }
    Ok(())
}

} // verus!

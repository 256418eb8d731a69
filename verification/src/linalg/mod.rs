//! Index arithmetic of the banded matrix storage used by the linear solvers.

pub mod banded;
pub mod faer_dense;
pub mod pentadiagonal;
pub mod pspline;

//! Marker for the optional dense linear algebra backend.

use vstd::prelude::*;

verus! {

/// Marker for the optional faer backend.
///
/// The algorithms use small in-crate solvers for portability; the marker keeps
/// the boundary of a larger dense backend explicit.
#[derive(Debug, Clone, Copy, Default, PartialEq, Eq, Structural)]
pub struct FaerDenseBackend;

} // verus!

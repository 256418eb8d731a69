//! Parameter record of the two-dimensional fit that runs a one-dimensional
//! baseline along each axis, and the shape check of the collaborative fits
//! over several surfaces.

use vstd::prelude::*;
use crate::data::MatrixView;
use crate::error::{BaselineError, Result};
use crate::whittaker::AslsParams;

verus! {

/// Parameters for fitting baselines independently along both axes.
#[derive(Debug, Clone, Copy, PartialEq)]
pub struct IndividualAxes2DParams<R> {
    /// One-dimensional AsLS parameters used for each row and column pass.
    pub asls: AslsParams<R>,
}

/// Whether the first `upto` surfaces all have the shape of the first one.
pub open spec fn same_shape_before<T>(surfaces: Seq<MatrixView<'_, T>>, upto: int) -> bool {
    forall|j: int| 0 <= j < upto ==> (#[trigger] surfaces[j]).spec_shape() == surfaces[0].spec_shape()
}

/// Checks that a collection of surfaces is non-empty and that every surface
/// has the shape of the first; otherwise reports the first surface that
/// differs, with its element count against the first one's.
pub fn validate_surfaces<T>(surfaces: &[MatrixView<'_, T>]) -> (res: Result<()>)
    ensures
        surfaces@.len() == 0 ==> res == Err::<(), BaselineError>(BaselineError::EmptyInput),
        surfaces@.len() > 0 ==> (res is Ok <==> same_shape_before(surfaces@, surfaces@.len() as int)),
        surfaces@.len() > 0 && res is Err ==> exists|k: int|
            0 <= k < surfaces@.len() && same_shape_before(surfaces@, k)
                && (#[trigger] surfaces@[k]).spec_shape() != surfaces@[0].spec_shape() && res
                == Err::<(), BaselineError>(BaselineError::LengthMismatch {
                name: "surface",
                expected: surfaces@[0].spec_data().len() as usize,
                actual: surfaces@[k].spec_data().len() as usize,
            }),
{
    if surfaces.len() == 0 {
        return Err(BaselineError::EmptyInput);
    }
    let shape = surfaces[0].shape();
    let mut i: usize = 0;
    while i < surfaces.len()
        invariant
            0 < surfaces@.len(),
            i <= surfaces@.len(),
            shape == surfaces@[0].spec_shape(),
            same_shape_before(surfaces@, i as int),
        decreases surfaces@.len() - i,
    {
        let surface = &surfaces[i];
        if surface.shape() != shape {
            let expected = surfaces[0].len();
            let actual = surface.len();
            assert(surfaces@[i as int].spec_shape() != surfaces@[0].spec_shape());
            return Err(BaselineError::LengthMismatch { name: "surface", expected, actual });
        }
        i = i + 1;
    }
    Ok(())
}

} // verus!

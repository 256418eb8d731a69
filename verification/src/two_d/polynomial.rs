//! Term layout of the two-dimensional polynomial surface basis.

use vstd::prelude::*;
use crate::data::{MatrixView, MatrixViewMut};
use crate::error::{BaselineError, Result};

verus! {

/// Parameters for a direct two-dimensional polynomial baseline fit.
#[derive(Debug, Clone, Copy, PartialEq, Eq, Structural)]
pub struct Poly2DParams {
    /// Maximum polynomial degree on each axis.
    pub order: usize,
}

impl Default for Poly2DParams {
    fn default() -> (p: Self)
        ensures
            p.order == 2,
    {
        Poly2DParams { order: 2 }
    }
}

/// The `(x_degree, y_degree)` pairs of a surface polynomial of degree at most
/// `order` on each axis, with the x degree varying slowest.
pub fn basis_terms(order: usize) -> (terms: Vec<(usize, usize)>)
    requires
        (order + 1) * (order + 1) <= usize::MAX,
    ensures
        terms@.len() == (order + 1) * (order + 1),
        forall|k: int| 0 <= k < terms@.len() ==> #[trigger] terms@[k] == ((k / (order + 1)) as usize, (k % (order + 1)) as usize),
{
    assert(order + 1 <= usize::MAX) by (nonlinear_arith)
        requires (order + 1) * (order + 1) <= usize::MAX;
    let width = order + 1;
    let mut terms: Vec<(usize, usize)> = Vec::new();
    let mut x_degree: usize = 0;
    while x_degree <= order
        invariant
            width == order + 1,
            width * width <= usize::MAX,
            x_degree <= width,
            terms@.len() == x_degree * width,
            forall|k: int| 0 <= k < terms@.len() ==> #[trigger] terms@[k] == ((k / width as int) as usize, (k % width as int) as usize),
        decreases width - x_degree,
    {
        let mut y_degree: usize = 0;
        while y_degree <= order
            invariant
                width == order + 1,
                width * width <= usize::MAX,
                x_degree < width,
                y_degree <= width,
                terms@.len() == x_degree * width + y_degree,
                forall|k: int| 0 <= k < terms@.len() ==> #[trigger] terms@[k] == ((k / width as int) as usize, (k % width as int) as usize),
            decreases width - y_degree,
        {
            proof {
                vstd::arithmetic::div_mod::lemma_fundamental_div_mod_converse(
                    x_degree * width + y_degree, width as int, x_degree as int, y_degree as int);
                assert((x_degree + 1) * width <= width * width) by (nonlinear_arith)
                    requires x_degree < width;
            }
            terms.push((x_degree, y_degree));
            y_degree = y_degree + 1;
        }
        assert(terms@.len() == (x_degree + 1) * width) by (nonlinear_arith)
            requires terms@.len() == x_degree * width + width;
        x_degree = x_degree + 1;
    }
    terms
}

/// Every pair of degrees up to `order` appears in the basis, exactly once: at
/// position `x_degree * (order + 1) + y_degree`.
pub proof fn lemma_basis_terms_complete(order: int, x_degree: int, y_degree: int)
    requires
        order >= 0,
        0 <= x_degree <= order,
        0 <= y_degree <= order,
    ensures
        0 <= x_degree * (order + 1) + y_degree < (order + 1) * (order + 1),
        (x_degree * (order + 1) + y_degree) / (order + 1) == x_degree,
        (x_degree * (order + 1) + y_degree) % (order + 1) == y_degree,
{
    vstd::arithmetic::div_mod::lemma_fundamental_div_mod_converse(
        x_degree * (order + 1) + y_degree, order + 1, x_degree, y_degree);
    assert(x_degree * (order + 1) + y_degree < (order + 1) * (order + 1)) by (nonlinear_arith)
        requires
            0 <= x_degree <= order,
            0 <= y_degree <= order,
    ;
    assert(0 <= x_degree * (order + 1)) by (nonlinear_arith)
        requires
            0 <= x_degree,
            0 <= order,
    ;
}

/// Checks that the output surface has the input's shape and that the input
/// has at least as many samples as the basis of degree `order` has terms.
pub fn validate_poly_input<T>(input: MatrixView<'_, T>, output: &MatrixViewMut<'_, T>, order: usize) -> (res: Result<()>)
    requires
        output.wf(),
        (order + 1) * (order + 1) <= usize::MAX,
    ensures
        input.spec_shape() != output.spec_shape() ==> res == Err::<(), BaselineError>(BaselineError::LengthMismatch {
            name: "output",
            expected: input.spec_data().len() as usize,
            actual: output.spec_data().len() as usize,
        }),
        input.spec_shape() == output.spec_shape() && (order + 1) * (order + 1) > input.spec_data().len() ==> res
            == Err::<(), BaselineError>(BaselineError::TooShort {
            algorithm: "two_d_polynomial",
            len: input.spec_data().len() as usize,
            min: ((order + 1) * (order + 1)) as usize,
        }),
        input.spec_shape() == output.spec_shape() && (order + 1) * (order + 1) <= input.spec_data().len() ==> res
            == Ok::<(), BaselineError>(()),
{
    if input.shape() != output.shape() {
        return Err(BaselineError::LengthMismatch { name: "output", expected: input.len(), actual: output.len() });
    }
    let basis_len = basis_terms(order).len();
    if basis_len > input.len() {
        return Err(BaselineError::TooShort { algorithm: "two_d_polynomial", len: input.len(), min: basis_len });
    }
    Ok(())
}

} // verus!

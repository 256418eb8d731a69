//! Window geometry of the two-dimensional morphology baselines: window radii,
//! matrix shapes, and the mirrored sample indices each window covers.

use vstd::prelude::*;
use crate::classification::{lemma_mirror_index_periodic, lemma_mirror_index_symmetric, mirror_index};
use crate::data::{MatrixView, MatrixViewMut};
use crate::error::{BaselineError, Result};

verus! {

/// Parameters for two-dimensional window-based morphology baselines.
#[derive(Debug, Clone, Copy, PartialEq, Eq, Structural)]
pub struct Morphology2DParams {
    /// Full moving-window row count. Even values are accepted and use
    /// `window_rows / 2` samples on each side.
    pub window_rows: usize,
    /// Full moving-window column count. Even values are accepted and use
    /// `window_cols / 2` samples on each side.
    pub window_cols: usize,
}

impl Default for Morphology2DParams {
    fn default() -> (p: Self)
        ensures
            p.window_rows == 7,
            p.window_cols == 7,
    {
        Morphology2DParams { window_rows: 7, window_cols: 7 }
    }
}

impl Morphology2DParams {
    /// Rejects a zero row window, then a zero column window.
    pub fn validate(self) -> (res: Result<()>)
        ensures
            self.window_rows == 0 ==> res == Err::<(), BaselineError>(BaselineError::InvalidParameter {
                name: "window_rows",
                reason: "must be greater than zero",
            }),
            self.window_rows > 0 && self.window_cols == 0 ==> res == Err::<(), BaselineError>(
                BaselineError::InvalidParameter { name: "window_cols", reason: "must be greater than zero" },
            ),
            self.window_rows > 0 && self.window_cols > 0 ==> res == Ok::<(), BaselineError>(()),
    {
        if self.window_rows == 0 {
            return Err(BaselineError::InvalidParameter { name: "window_rows", reason: "must be greater than zero" });
        }
        if self.window_cols == 0 {
            return Err(BaselineError::InvalidParameter { name: "window_cols", reason: "must be greater than zero" });
        }
        Ok(())
    }

    /// The row and column half-widths of the window.
    pub fn radii(self) -> (r: (usize, usize))
        ensures
            r == (self.window_rows / 2, self.window_cols / 2),
    {
        (self.window_rows / 2, self.window_cols / 2)
    }
}

/// Parameters of the improved two-dimensional morphology baseline. The
/// tolerance is a real number of the number type `R`, which the numeric code
/// instantiates with `f64`.
#[derive(Debug, Clone, Copy, PartialEq)]
pub struct Imor2DParams<R> {
    /// Shared morphology window parameters.
    pub morphology: Morphology2DParams,
    /// Maximum number of update iterations.
    pub max_iter: usize,
    /// Relative baseline-change tolerance.
    pub tol: R,
}

/// Row and column counts of the surface a morphology pass runs over.
#[derive(Debug, Clone, Copy, PartialEq, Eq, Structural)]
pub struct MorphologyShape {
    /// Number of rows.
    pub rows: usize,
    /// Number of columns.
    pub cols: usize,
}

impl MorphologyShape {
    /// Creates a shape.
    pub fn new(rows: usize, cols: usize) -> (s: Self)
        ensures
            s == (MorphologyShape { rows, cols }),
    {
        MorphologyShape { rows, cols }
    }

    /// Returns `rows * cols`.
    pub fn len(self) -> (n: usize)
        requires
            self.rows * self.cols <= usize::MAX,
        ensures
            n == self.rows * self.cols,
    {
        self.rows * self.cols
    }
}

/// Row and column half-widths of a morphology window.
#[derive(Debug, Clone, Copy, PartialEq, Eq, Structural)]
pub struct MorphologyWindow {
    /// Samples on each side of the centre row.
    pub row_radius: usize,
    /// Samples on each side of the centre column.
    pub col_radius: usize,
}

impl MorphologyWindow {
    /// Creates a window.
    pub fn new(row_radius: usize, col_radius: usize) -> (w: Self)
        ensures
            w == (MorphologyWindow { row_radius, col_radius }),
    {
        MorphologyWindow { row_radius, col_radius }
    }
}

/// The indices covered by a window of `radius` samples on each side of
/// `center`, along an axis of `len` samples mirrored at its edges.
pub fn window_indices(center: usize, len: usize, radius: usize) -> (indices: Vec<usize>)
    requires
        len >= 1,
        2 * len <= isize::MAX,
        center + 2 * radius + 1 <= isize::MAX,
    ensures
        indices@.len() == 2 * radius + 1,
        forall|o: int| 0 <= o < indices@.len() ==> #[trigger] indices@[o] as int == mirror_index(center + o - radius, len as int),
        forall|o: int| 0 <= o < indices@.len() ==> #[trigger] indices@[o] < len,
{
    let window_len = 2 * radius + 1;
    let mut indices: Vec<usize> = Vec::new();
    let mut offset: usize = 0;
    while offset < window_len
        invariant
            window_len == 2 * radius + 1,
            len >= 1,
            2 * len <= isize::MAX,
            center + 2 * radius + 1 <= isize::MAX,
            offset <= window_len,
            indices@.len() == offset,
            forall|o: int| 0 <= o < offset ==> #[trigger] indices@[o] as int == mirror_index(center + o - radius, len as int),
            forall|o: int| 0 <= o < offset ==> #[trigger] indices@[o] < len,
        decreases window_len - offset,
    {
        let raw = center as isize + offset as isize - radius as isize;
        indices.push(reflect_index(raw, len));
        offset = offset + 1;
    }
    indices
}

/// Maps `index` into `[0, len)` by repeatedly mirroring it about the edges,
/// with the edge samples repeated.
pub fn reflect_index(index: isize, len: usize) -> (r: usize)
    requires
        len >= 1,
        2 * len <= isize::MAX,
    ensures
        r as int == mirror_index(index as int, len as int),
        r < len,
{
    if len == 1 {
        return 0;
    }
    let len = len as isize;
    let mut reflected = index;
    while reflected < 0 || reflected >= len
        invariant
            len >= 2,
            2 * len <= isize::MAX,
            mirror_index(reflected as int, len as int) == mirror_index(index as int, len as int),
        decreases (if reflected >= 0 { 2 * reflected } else { -2 * reflected - 1 }),
    {
        if reflected < 0 {
            proof {
                lemma_mirror_index_symmetric(reflected as int, len as int);
            }
            reflected = -(reflected + 1);
        } else {
            proof {
                lemma_mirror_index_symmetric(reflected as int, len as int);
                lemma_mirror_index_periodic(-1 - reflected as int, len as int);
            }
            reflected = 2 * len - reflected - 1;
        }
    }
    proof {
        vstd::arithmetic::div_mod::lemma_small_mod(reflected as nat, (2 * len) as nat);
    }
    reflected as usize
}

/// The middle index of a window is its centre, and every index of the window
/// lies inside the axis.
pub proof fn lemma_window_centre(center: int, len: int, radius: int)
    requires
        0 <= center < len,
        radius >= 0,
    ensures
        mirror_index(center + radius - radius, len) == (if len <= 1 { 0 } else { center }),
        forall|o: int| 0 <= o <= 2 * radius ==> 0 <= #[trigger] mirror_index(center + o - radius, len) < len,
{
    crate::classification::lemma_reflection_identity_inside(center, len);
    assert forall|o: int| 0 <= o <= 2 * radius implies 0 <= #[trigger] mirror_index(center + o - radius, len) < len by {
        crate::classification::lemma_reflection_in_bounds(center + o - radius, len);
    }
}

/// Checks the window parameters, then that the output surface has the input's
/// shape.
pub fn validate_input_output<T>(input: MatrixView<'_, T>, output: &MatrixViewMut<'_, T>, params: Morphology2DParams) -> (res: Result<()>)
    requires
        output.wf(),
    ensures
        params.window_rows == 0 || params.window_cols == 0 ==> res == Err::<(), BaselineError>(BaselineError::InvalidParameter {
            name: if params.window_rows == 0 { "window_rows" } else { "window_cols" },
            reason: "must be greater than zero",
        }),
        params.window_rows > 0 && params.window_cols > 0 && input.spec_shape() != output.spec_shape() ==> res
            == Err::<(), BaselineError>(BaselineError::LengthMismatch {
            name: "output",
            expected: (input.spec_shape().rows * input.spec_shape().cols) as usize,
            actual: (output.spec_shape().rows * output.spec_shape().cols) as usize,
        }),
        params.window_rows > 0 && params.window_cols > 0 && input.spec_shape() == output.spec_shape() ==> res
            == Ok::<(), BaselineError>(()),
{
    match params.validate() {
        Ok(()) => {},
        Err(e) => return Err(e),
    }
    let input_shape = input.shape();
    let output_shape = output.shape();
    if input_shape != output_shape {
        return Err(BaselineError::LengthMismatch {
            name: "output",
            expected: input.len(),
            actual: output.len(),
        });
    }
    Ok(())
}

} // verus!

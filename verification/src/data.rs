//! Row-major matrix shapes and the checks on their element counts.

use vstd::prelude::*;
use crate::error::{BaselineError, Result};

verus! {

/// Matrix memory layout.
#[derive(Debug, Clone, Copy, PartialEq, Eq, Structural)]
pub enum MatrixLayout {
    /// Rows are contiguous and columns vary fastest.
    RowMajor,
}

impl Default for MatrixLayout {
    fn default() -> (layout: Self)
        ensures
            layout == MatrixLayout::RowMajor,
    {
        MatrixLayout::RowMajor
    }
}

/// Matrix shape.
#[derive(Debug, Clone, Copy, PartialEq, Eq, Structural)]
pub struct MatrixShape {
    /// Number of rows.
    pub rows: usize,
    /// Number of columns.
    pub cols: usize,
}

/// A shape is accepted when both dimensions are positive and the element
/// count fits in `usize`.
pub open spec fn valid_shape(rows: int, cols: int) -> bool {
    &&& rows > 0
    &&& cols > 0
    &&& rows * cols <= usize::MAX
}

/// The error reported for a rejected shape, in the order the checks run.
pub open spec fn shape_error(rows: int, cols: int) -> BaselineError {
    if rows == 0 {
        BaselineError::InvalidParameter { name: "rows", reason: "must be greater than zero" }
    } else if cols == 0 {
        BaselineError::InvalidParameter { name: "cols", reason: "must be greater than zero" }
    } else {
        BaselineError::InvalidParameter { name: "shape", reason: "rows * cols overflows usize" }
    }
}

impl MatrixShape {
    /// Creates a non-empty matrix shape.
    pub fn new(rows: usize, cols: usize) -> (res: Result<Self>)
        ensures
            valid_shape(rows as int, cols as int) ==> res == Ok::<MatrixShape, BaselineError>(MatrixShape { rows, cols }),
            !valid_shape(rows as int, cols as int) ==> res == Err::<MatrixShape, BaselineError>(shape_error(rows as int, cols as int)),
    {
        match checked_matrix_len(rows, cols) {
            Ok(_) => Ok(MatrixShape { rows, cols }),
            Err(e) => Err(e),
        }
    }

    /// Returns `rows * cols`.
    pub fn len(self) -> (n: usize)
        requires
            self.rows * self.cols <= usize::MAX,
        ensures
            n == self.rows * self.cols,
    {
        self.rows * self.cols
    }

    /// Returns whether the shape has no elements.
    pub fn is_empty(self) -> (b: bool)
        requires
            self.rows * self.cols <= usize::MAX,
        ensures
            b == (self.rows * self.cols == 0),
    {
        self.len() == 0
    }
}

/// Every accepted shape has at least one element, and its element count
/// needs no more than `usize` to hold.
pub proof fn lemma_valid_shape_nonempty(rows: int, cols: int)
    requires
        valid_shape(rows, cols),
    ensures
        1 <= rows * cols <= usize::MAX,
{
    vstd::arithmetic::mul::lemma_mul_strictly_positive(rows, cols);
}

/// Validates a matrix slice length against a non-empty shape.
pub fn validate_matrix_len(name: &'static str, rows: usize, cols: usize, actual: usize) -> (res: Result<()>)
    ensures
        !valid_shape(rows as int, cols as int) ==> res == Err::<(), BaselineError>(shape_error(rows as int, cols as int)),
        valid_shape(rows as int, cols as int) && rows * cols == actual ==> res == Ok::<(), BaselineError>(()),
        valid_shape(rows as int, cols as int) && rows * cols != actual ==> res == Err::<(), BaselineError>(
            BaselineError::LengthMismatch { name, expected: (rows * cols) as usize, actual },
        ),
{
    let expected = match checked_matrix_len(rows, cols) {
        Ok(n) => n,
        Err(e) => return Err(e),
    };
    if expected != actual {
        return Err(BaselineError::LengthMismatch { name, expected, actual });
    }
    Ok(())
}

/// Returns `rows * cols` for a non-empty shape whose element count fits in `usize`.
pub fn checked_matrix_len(rows: usize, cols: usize) -> (res: Result<usize>)
    ensures
        valid_shape(rows as int, cols as int) ==> res == Ok::<usize, BaselineError>((rows * cols) as usize),
        !valid_shape(rows as int, cols as int) ==> res == Err::<usize, BaselineError>(shape_error(rows as int, cols as int)),
{
    if rows == 0 {
        return Err(BaselineError::InvalidParameter { name: "rows", reason: "must be greater than zero" });
    }
    if cols == 0 {
        return Err(BaselineError::InvalidParameter { name: "cols", reason: "must be greater than zero" });
    }
    match rows.checked_mul(cols) {
        Some(n) => Ok(n),
        None => Err(BaselineError::InvalidParameter { name: "shape", reason: "rows * cols overflows usize" }),
    }
}

} // verus!

verus! {

/// Validates row-major matrix input: first its length against the shape, then
/// that it holds only finite values, given as the index of its first
/// non-finite value (`None` when every value is finite).
pub fn validate_matrix_data(
    name: &'static str,
    rows: usize,
    cols: usize,
    actual: usize,
    first_non_finite: Option<usize>,
) -> (res: Result<()>)
    ensures
        !valid_shape(rows as int, cols as int) ==> res == Err::<(), BaselineError>(shape_error(rows as int, cols as int)),
        valid_shape(rows as int, cols as int) && rows * cols != actual ==> res == Err::<(), BaselineError>(
            BaselineError::LengthMismatch { name, expected: (rows * cols) as usize, actual },
        ),
        valid_shape(rows as int, cols as int) && rows * cols == actual ==> res == (match first_non_finite {
            Some(index) => Err::<(), BaselineError>(BaselineError::NonFiniteInput { index }),
            None => Ok::<(), BaselineError>(()),
        }),
{
    match validate_matrix_len(name, rows, cols, actual) {
        Ok(()) => {},
        Err(e) => return Err(e),
    }
    match first_non_finite {
        Some(index) => Err(BaselineError::NonFiniteInput { index }),
        None => Ok(()),
    }
}

/// Immutable row-major matrix view over a slice of elements `T`.
#[derive(Debug)]
pub struct MatrixView<'a, T> {
    data: &'a [T],
    shape: MatrixShape,
    layout: MatrixLayout,
}

impl<'a, T> Clone for MatrixView<'a, T> {
    fn clone(&self) -> (c: Self)
        ensures
            c == *self,
    {
        proof {
            use_type_invariant(self);
        }
        MatrixView { data: self.data, shape: self.shape, layout: self.layout }
    }
}

impl<'a, T> Copy for MatrixView<'a, T> {
}

impl<'a, T> MatrixView<'a, T> {
    /// A view always has a valid shape that matches its data.
    #[verifier::type_invariant]
    closed spec fn wf(self) -> bool {
        &&& valid_shape(self.shape.rows as int, self.shape.cols as int)
        &&& self.data@.len() == self.shape.rows * self.shape.cols
    }

    /// The viewed elements, in row-major order.
    pub closed spec fn spec_data(&self) -> Seq<T> {
        self.data@
    }

    /// The shape of the view.
    pub closed spec fn spec_shape(&self) -> MatrixShape {
        self.shape
    }

    /// The layout of the view.
    pub closed spec fn spec_layout(&self) -> MatrixLayout {
        self.layout
    }

    /// Creates a validated row-major matrix view; `first_non_finite` is the
    /// index of the first non-finite element of `data`, `None` when every
    /// element is finite.
    pub fn row_major(data: &'a [T], rows: usize, cols: usize, first_non_finite: Option<usize>) -> (res: Result<Self>)
        ensures
            !valid_shape(rows as int, cols as int) ==> res == Err::<Self, BaselineError>(shape_error(rows as int, cols as int)),
            valid_shape(rows as int, cols as int) && rows * cols != data@.len() ==> res == Err::<Self, BaselineError>(
                BaselineError::LengthMismatch { name: "data", expected: (rows * cols) as usize, actual: data@.len() as usize },
            ),
            valid_shape(rows as int, cols as int) && rows * cols == data@.len() && first_non_finite is Some ==> res
                == Err::<Self, BaselineError>(BaselineError::NonFiniteInput { index: first_non_finite->0 }),
            valid_shape(rows as int, cols as int) && rows * cols == data@.len() && first_non_finite is None ==> (res matches Ok(v)
                && v.spec_data() == data@ && v.spec_shape() == (MatrixShape { rows, cols }) && v.spec_layout()
                == MatrixLayout::RowMajor),
    {
        Self::new(data, rows, cols, MatrixLayout::RowMajor, first_non_finite)
    }

    /// Creates a matrix view after checking the shape against the data length
    /// and then that every element is finite; `first_non_finite` is the index
    /// of the first non-finite element of `data`, `None` when every element is
    /// finite.
    pub fn new(
        data: &'a [T],
        rows: usize,
        cols: usize,
        layout: MatrixLayout,
        first_non_finite: Option<usize>,
    ) -> (res: Result<Self>)
        ensures
            !valid_shape(rows as int, cols as int) ==> res == Err::<Self, BaselineError>(shape_error(rows as int, cols as int)),
            valid_shape(rows as int, cols as int) && rows * cols != data@.len() ==> res == Err::<Self, BaselineError>(
                BaselineError::LengthMismatch { name: "data", expected: (rows * cols) as usize, actual: data@.len() as usize },
            ),
            valid_shape(rows as int, cols as int) && rows * cols == data@.len() && first_non_finite is Some ==> res
                == Err::<Self, BaselineError>(BaselineError::NonFiniteInput { index: first_non_finite->0 }),
            valid_shape(rows as int, cols as int) && rows * cols == data@.len() && first_non_finite is None ==> (res matches Ok(v)
                && v.spec_data() == data@ && v.spec_shape() == (MatrixShape { rows, cols }) && v.spec_layout() == layout),
    {
        match validate_matrix_data("data", rows, cols, data.len(), first_non_finite) {
            Ok(()) => {
                Ok(MatrixView { data, shape: MatrixShape { rows, cols }, layout })
            },
            Err(e) => Err(e),
        }
    }

    /// Returns the underlying data.
    pub fn as_slice(&self) -> (s: &'a [T])
        ensures
            s@ == self.spec_data(),
    {
        self.data
    }

    /// Returns the matrix shape.
    pub fn shape(&self) -> (s: MatrixShape)
        ensures
            s == self.spec_shape(),
    {
        self.shape
    }

    /// Returns the number of rows.
    pub fn rows(&self) -> (r: usize)
        ensures
            r == self.spec_shape().rows,
    {
        self.shape.rows
    }

    /// Returns the number of columns.
    pub fn cols(&self) -> (c: usize)
        ensures
            c == self.spec_shape().cols,
    {
        self.shape.cols
    }

    /// Returns the matrix layout.
    pub fn layout(&self) -> (l: MatrixLayout)
        ensures
            l == self.spec_layout(),
    {
        self.layout
    }

    /// Returns the number of matrix elements.
    pub fn len(&self) -> (n: usize)
        ensures
            n == self.spec_shape().rows * self.spec_shape().cols,
            n == self.spec_data().len(),
    {
        proof {
            use_type_invariant(self);
        }
        self.shape.len()
    }

    /// Returns whether the matrix has no elements; a view never is.
    pub fn is_empty(&self) -> (b: bool)
        ensures
            b == (self.spec_data().len() == 0),
            !b,
    {
        proof {
            use_type_invariant(self);
            vstd::arithmetic::mul::lemma_mul_strictly_positive(self.shape.rows as int, self.shape.cols as int);
        }
        self.shape.is_empty()
    }

    /// Returns the value at `(row, col)`, or `None` if out of bounds.
    pub fn get(&self, row: usize, col: usize) -> (v: Option<T>)
        where
            T: Copy,
        ensures
            row < self.spec_shape().rows && col < self.spec_shape().cols ==> v == Some(
                self.spec_data()[row * self.spec_shape().cols + col],
            ),
            !(row < self.spec_shape().rows && col < self.spec_shape().cols) ==> v is None,
    {
        match self.index(row, col) {
            Some(index) => Some(self.data[index]),
            None => None,
        }
    }

    /// Returns a contiguous row, or `None` if out of bounds.
    pub fn row(&self, row: usize) -> (r: Option<&'a [T]>)
        ensures
            row < self.spec_shape().rows ==> (r matches Some(s) && s@ == self.spec_data().subrange(
                row * self.spec_shape().cols,
                row * self.spec_shape().cols + self.spec_shape().cols,
            )),
            row >= self.spec_shape().rows ==> r is None,
    {
        proof {
            use_type_invariant(self);
        }
        if row >= self.shape.rows {
            return None;
        }
        proof {
            lemma_row_in_bounds(row as int, self.shape.rows as int, self.shape.cols as int);
        }
        let start = row * self.shape.cols;
        Some(&self.data[start..start + self.shape.cols])
    }

    /// The position of `(row, col)` in the data, or `None` if out of bounds.
    pub fn index(&self, row: usize, col: usize) -> (i: Option<usize>)
        ensures
            row < self.spec_shape().rows && col < self.spec_shape().cols ==> i == Some(
                (row * self.spec_shape().cols + col) as usize,
            ) && row * self.spec_shape().cols + col < self.spec_data().len(),
            !(row < self.spec_shape().rows && col < self.spec_shape().cols) ==> i is None,
    {
        proof {
            use_type_invariant(self);
        }
        if row < self.shape.rows && col < self.shape.cols {
            proof {
                lemma_row_in_bounds(row as int, self.shape.rows as int, self.shape.cols as int);
            }
            Some(row * self.shape.cols + col)
        } else {
            None
        }
    }
}

/// Row `row` of a `rows` by `cols` row-major matrix lies inside its data.
pub proof fn lemma_row_in_bounds(row: int, rows: int, cols: int)
    requires
        0 <= row < rows,
        0 <= cols,
    ensures
        row * cols + cols <= rows * cols,
        0 <= row * cols,
{
    assert(row * cols + cols <= rows * cols) by (nonlinear_arith)
        requires
            0 <= row < rows,
            0 <= cols,
    ;
    assert(0 <= row * cols) by (nonlinear_arith)
        requires
            0 <= row,
            0 <= cols,
    ;
}

} // verus!

verus! {

/// Mutable row-major matrix view over a slice of elements `T`.
#[derive(Debug)]
pub struct MatrixViewMut<'a, T> {
    data: &'a mut [T],
    shape: MatrixShape,
    layout: MatrixLayout,
}

impl<'a, T> MatrixViewMut<'a, T> {
    /// Whether the view has a valid shape that matches its data; every
    /// constructor establishes it and every method keeps it.
    pub closed spec fn wf(&self) -> bool {
        &&& valid_shape(self.shape.rows as int, self.shape.cols as int)
        &&& self.data@.len() == self.shape.rows * self.shape.cols
    }

    /// The viewed elements, in row-major order.
    pub closed spec fn spec_data(&self) -> Seq<T> {
        self.data@
    }

    /// The shape of the view.
    pub closed spec fn spec_shape(&self) -> MatrixShape {
        self.shape
    }

    /// The layout of the view.
    pub closed spec fn spec_layout(&self) -> MatrixLayout {
        self.layout
    }

    /// Creates a validated mutable row-major matrix view.
    pub fn row_major(data: &'a mut [T], rows: usize, cols: usize) -> (res: Result<Self>)
        ensures
            !valid_shape(rows as int, cols as int) ==> res == Err::<Self, BaselineError>(shape_error(rows as int, cols as int)),
            valid_shape(rows as int, cols as int) && rows * cols != old(data)@.len() ==> res == Err::<Self, BaselineError>(
                BaselineError::LengthMismatch { name: "data", expected: (rows * cols) as usize, actual: old(data)@.len() as usize },
            ),
            valid_shape(rows as int, cols as int) && rows * cols == old(data)@.len() ==> (res matches Ok(v) && v.wf() && v.spec_data()
                == old(data)@ && v.spec_shape() == (MatrixShape { rows, cols }) && v.spec_layout() == MatrixLayout::RowMajor),
    {
        Self::new(data, rows, cols, MatrixLayout::RowMajor)
    }

    /// Creates a mutable matrix view after checking the shape against the data length.
    pub fn new(data: &'a mut [T], rows: usize, cols: usize, layout: MatrixLayout) -> (res: Result<Self>)
        ensures
            !valid_shape(rows as int, cols as int) ==> res == Err::<Self, BaselineError>(shape_error(rows as int, cols as int)),
            valid_shape(rows as int, cols as int) && rows * cols != old(data)@.len() ==> res == Err::<Self, BaselineError>(
                BaselineError::LengthMismatch { name: "data", expected: (rows * cols) as usize, actual: old(data)@.len() as usize },
            ),
            valid_shape(rows as int, cols as int) && rows * cols == old(data)@.len() ==> (res matches Ok(v) && v.wf() && v.spec_data()
                == old(data)@ && v.spec_shape() == (MatrixShape { rows, cols }) && v.spec_layout() == layout),
    {
        match validate_matrix_len("data", rows, cols, data.len()) {
            Ok(()) => Ok(MatrixViewMut { data, shape: MatrixShape { rows, cols }, layout }),
            Err(e) => Err(e),
        }
    }

    /// Returns the matrix shape.
    pub fn shape(&self) -> (s: MatrixShape)
        ensures
            s == self.spec_shape(),
    {
        self.shape
    }

    /// Returns the number of rows.
    pub fn rows(&self) -> (r: usize)
        ensures
            r == self.spec_shape().rows,
    {
        self.shape.rows
    }

    /// Returns the number of columns.
    pub fn cols(&self) -> (c: usize)
        ensures
            c == self.spec_shape().cols,
    {
        self.shape.cols
    }

    /// Returns the matrix layout.
    pub fn layout(&self) -> (l: MatrixLayout)
        ensures
            l == self.spec_layout(),
    {
        self.layout
    }

    /// Returns the number of matrix elements.
    pub fn len(&self) -> (n: usize)
        requires
            self.wf(),
        ensures
            n == self.spec_shape().rows * self.spec_shape().cols,
            n == self.spec_data().len(),
    {
        self.shape.len()
    }

    /// Returns whether the matrix has no elements; a view never is.
    pub fn is_empty(&self) -> (b: bool)
        requires
            self.wf(),
        ensures
            b == (self.spec_data().len() == 0),
            !b,
    {
        proof {
            vstd::arithmetic::mul::lemma_mul_strictly_positive(self.shape.rows as int, self.shape.cols as int);
        }
        self.shape.is_empty()
    }

    /// The position of `(row, col)` in the data, or `None` if out of bounds.
    pub fn index(&self, row: usize, col: usize) -> (i: Option<usize>)
        requires
            self.wf(),
        ensures
            row < self.spec_shape().rows && col < self.spec_shape().cols ==> i == Some(
                (row * self.spec_shape().cols + col) as usize,
            ) && row * self.spec_shape().cols + col < self.spec_data().len(),
            !(row < self.spec_shape().rows && col < self.spec_shape().cols) ==> i is None,
    {
        if row < self.shape.rows && col < self.shape.cols {
            proof {
                lemma_row_in_bounds(row as int, self.shape.rows as int, self.shape.cols as int);
            }
            Some(row * self.shape.cols + col)
        } else {
            None
        }
    }

    /// Returns the value at `(row, col)`, or `None` if out of bounds.
    pub fn get(&self, row: usize, col: usize) -> (v: Option<T>)
        where
            T: Copy,
        requires
            self.wf(),
        ensures
            row < self.spec_shape().rows && col < self.spec_shape().cols ==> v == Some(
                self.spec_data()[row * self.spec_shape().cols + col],
            ),
            !(row < self.spec_shape().rows && col < self.spec_shape().cols) ==> v is None,
    {
        match self.index(row, col) {
            Some(index) => Some(self.data[index]),
            None => None,
        }
    }

    /// Returns the underlying data.
    pub fn as_slice(&self) -> (s: &[T])
        ensures
            s@ == self.spec_data(),
    {
        &*self.data
    }

    /// Returns the underlying mutable data; writes through it keep the shape.
    pub fn as_mut_slice(&mut self) -> (s: &mut [T])
        ensures
            s@ == old(self).spec_data(),
            final(self).spec_data() == final(s)@,
            old(self).wf() && final(s)@.len() == s@.len() ==> final(self).wf(),
            final(self).spec_shape() == old(self).spec_shape(),
            final(self).spec_layout() == old(self).spec_layout(),
    {
        &mut *self.data
    }

    /// Returns a contiguous row, or `None` if out of bounds.
    pub fn row(&self, row: usize) -> (r: Option<&[T]>)
        requires
            self.wf(),
        ensures
            row < self.spec_shape().rows ==> (r matches Some(s) && s@ == self.spec_data().subrange(
                row * self.spec_shape().cols,
                row * self.spec_shape().cols + self.spec_shape().cols,
            )),
            row >= self.spec_shape().rows ==> r is None,
    {
        if row >= self.shape.rows {
            return None;
        }
        proof {
            lemma_row_in_bounds(row as int, self.shape.rows as int, self.shape.cols as int);
        }
        let start = row * self.shape.cols;
        Some(&self.data[start..start + self.shape.cols])
    }

    /// Returns a mutable contiguous row, or `None` if out of bounds; writes
    /// through it change only that row.
    pub fn row_mut(&mut self, row: usize) -> (r: Option<&mut [T]>)
        requires
            old(self).wf(),
        ensures
            final(self).spec_shape() == old(self).spec_shape(),
            final(self).spec_layout() == old(self).spec_layout(),
            row >= old(self).spec_shape().rows ==> r is None && final(self).spec_data() == old(self).spec_data()
                && final(self).wf(),
            row < old(self).spec_shape().rows ==> (r matches Some(s) && (final(s)@.len() == s@.len() ==> final(self).wf())),
            row < old(self).spec_shape().rows ==> (r matches Some(s) && s@ == old(self).spec_data().subrange(
                row * old(self).spec_shape().cols,
                row * old(self).spec_shape().cols + old(self).spec_shape().cols,
            ) && final(self).spec_data() == old(self).spec_data().subrange(0, row * old(self).spec_shape().cols)
                + final(s)@ + old(self).spec_data().subrange(
                row * old(self).spec_shape().cols + old(self).spec_shape().cols,
                old(self).spec_data().len() as int,
            )),
    {
        if row >= self.shape.rows {
            return None;
        }
        proof {
            lemma_row_in_bounds(row as int, self.shape.rows as int, self.shape.cols as int);
        }
        let start = row * self.shape.cols;
        let cols = self.shape.cols;
        let (_, rest) = self.data.split_at_mut(start);
        let (row_slice, _) = rest.split_at_mut(cols);
        Some(row_slice)
    }

    /// Sets the value at `(row, col)`.
    pub fn set(&mut self, row: usize, col: usize, value: T) -> (res: Result<()>)
        requires
            old(self).wf(),
        ensures
            final(self).wf(),
            final(self).spec_shape() == old(self).spec_shape(),
            final(self).spec_layout() == old(self).spec_layout(),
            row < old(self).spec_shape().rows && col < old(self).spec_shape().cols ==> res == Ok::<(), BaselineError>(())
                && final(self).spec_data() == old(self).spec_data().update(row * old(self).spec_shape().cols + col, value),
            !(row < old(self).spec_shape().rows && col < old(self).spec_shape().cols) ==> res == Err::<(), BaselineError>(
                BaselineError::InvalidParameter { name: "index", reason: "row or column is outside the matrix shape" },
            ) && final(self).spec_data() == old(self).spec_data(),
    {
        match self.index(row, col) {
            Some(index) => {
                self.data[index] = value;
                Ok(())
            },
            None => Err(BaselineError::InvalidParameter {
                name: "index",
                reason: "row or column is outside the matrix shape",
            }),
        }
    }
}

} // verus!

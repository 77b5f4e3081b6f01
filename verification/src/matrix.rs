//! The matrix operand model and the layout adapter.
//!
//! An operand is a rectangular view into one contiguous backing vector,
//! described by a row stride and a column stride. The layout adapter
//! decides whether such a view can be handed to a native routine as a
//! row-major or column-major block with a leading dimension, and rejects
//! views with irregular strides.

use vstd::prelude::*;
use vstd::arithmetic::div_mod::lemma_fundamental_div_mod;
use crate::types::Layout;

verus! {

/// A matrix operand of element type `T`.
///
/// Element `(i, j)` lives at index `i * row_stride + j * col_stride` of
/// `data`. Well-formedness ([`Matrix::wf`]) asks exactly that every such
/// index is in bounds.
pub struct Matrix<T> {
    /// The contiguous backing storage.
    pub data: Vec<T>,
    /// Number of rows.
    pub rows: usize,
    /// Number of columns.
    pub cols: usize,
    /// Distance in elements between vertically adjacent entries.
    pub row_stride: usize,
    /// Distance in elements between horizontally adjacent entries.
    pub col_stride: usize,
}

impl<T> Matrix<T> {
    /// Every element index that the shape and strides can address is in
    /// bounds of the backing storage.
    pub open spec fn wf(self) -> bool {
        self.rows > 0 && self.cols > 0 ==> (self.rows - 1) * self.row_stride + (self.cols - 1)
            * self.col_stride < self.data@.len()
    }

    /// The element at row `i`, column `j`.
    pub open spec fn entry(self, i: int, j: int) -> T
        recommends
            self.wf(),
            0 <= i < self.rows,
            0 <= j < self.cols,
    {
        self.data@[i * self.row_stride + j * self.col_stride]
    }

    /// What the layout adapter decides for this operand: the layout tag and
    /// the leading dimension under which the backing storage reads as one
    /// contiguous block, or `None` for irregular strides.
    pub open spec fn spec_adapt(self) -> Option<(Layout, usize)> {
        if self.col_stride == 1 && self.row_stride >= self.cols {
            Some((Layout::RowMajor, self.row_stride))
        } else if self.row_stride == 1 && self.col_stride >= self.rows {
            Some((Layout::ColumnMajor, self.col_stride))
        } else {
            None
        }
    }

    /// The index of element `(i, j)` is in bounds for a well-formed matrix.
    proof fn lemma_entry_index_in_bounds(self, i: int, j: int)
        requires
            self.wf(),
            0 <= i < self.rows,
            0 <= j < self.cols,
        ensures
            0 <= i * self.row_stride,
            0 <= j * self.col_stride,
            i * self.row_stride + j * self.col_stride < self.data@.len(),
    {
        assert(i * self.row_stride + j * self.col_stride <= (self.rows - 1) * self.row_stride + (
        self.cols - 1) * self.col_stride) by (nonlinear_arith)
            requires
                0 <= i <= self.rows - 1,
                0 <= j <= self.cols - 1,
                0 <= self.row_stride,
                0 <= self.col_stride,
        ;
        assert(0 <= i * self.row_stride + j * self.col_stride) by (nonlinear_arith)
            requires
                0 <= i,
                0 <= j,
                0 <= self.row_stride,
                0 <= self.col_stride,
        ;
    }

    /// Layout adapter for an operand that a native routine is to read or
    /// overwrite: exposes the layout tag and leading dimension of the
    /// existing storage, without copying. Fails on irregular strides.
    pub fn adapt(&self) -> (r: Option<(Layout, usize)>)
        ensures
            r == self.spec_adapt(),
    {
        if self.col_stride == 1 && self.row_stride >= self.cols {
            Some((Layout::RowMajor, self.row_stride))
        } else if self.row_stride == 1 && self.col_stride >= self.rows {
            Some((Layout::ColumnMajor, self.col_stride))
        } else {
            None
        }
    }

    /// Build a matrix over a fully contiguous row-major vector.
    pub fn from_shape_vec(rows: usize, cols: usize, data: Vec<T>) -> (r: Matrix<T>)
        requires
            data@.len() == rows * cols,
        ensures
            r.wf(),
            r.rows == rows,
            r.cols == cols,
            r.row_stride == cols,
            r.col_stride == 1,
            r.data == data,
            forall|i: int, j: int|
                0 <= i < rows && 0 <= j < cols ==> r.entry(i, j) == data@[i * cols + j],
    {
        proof {
            if rows > 0 && cols > 0 {
                assert((rows - 1) * cols + (cols - 1) * 1 < rows * cols) by (nonlinear_arith)
                    requires
                        rows > 0,
                        cols > 0,
                ;
            }
        }
        Matrix { data, rows, cols, row_stride: cols, col_stride: 1 }
    }

    /// Build a matrix view with explicit strides over a backing vector.
    ///
    /// This is how an operand that is not a plain contiguous block — a
    /// transpose, a padded block, or an irregularly strided view — enters
    /// the model.
    pub fn from_strides(
        rows: usize,
        cols: usize,
        row_stride: usize,
        col_stride: usize,
        data: Vec<T>,
    ) -> (r: Matrix<T>)
        requires
            rows > 0 && cols > 0 ==> (rows - 1) * row_stride + (cols - 1) * col_stride
                < data@.len(),
        ensures
            r.wf(),
            r.rows == rows,
            r.cols == cols,
            r.row_stride == row_stride,
            r.col_stride == col_stride,
            r.data == data,
    {
        Matrix { data, rows, cols, row_stride, col_stride }
    }

    /// Read the element at row `i`, column `j`.
    pub fn get(&self, i: usize, j: usize) -> (r: &T)
        requires
            self.wf(),
            i < self.rows,
            j < self.cols,
        ensures
            *r == self.entry(i as int, j as int),
    {
        // Reading the length as a machine word bounds the index arithmetic
        // below by the machine's word range.
        let _n: usize = self.data.len();
        proof {
            self.lemma_entry_index_in_bounds(i as int, j as int);
        }
        let idx: usize = i * self.row_stride + j * self.col_stride;
        &self.data[idx]
    }
}

/// Holds when `dst` is the fresh row-major deep copy that the copy-form
/// entry points take of their input `src`.
pub open spec fn is_row_major_copy<T>(src: Matrix<T>, dst: Matrix<T>) -> bool {
    &&& dst.rows == src.rows
    &&& dst.cols == src.cols
    &&& dst.row_stride == src.cols
    &&& dst.col_stride == 1
    &&& dst.data@.len() == src.rows * src.cols
    &&& forall|i: int, j: int|
        0 <= i < src.rows && 0 <= j < src.cols ==> dst.entry(i, j) == src.entry(i, j)
}

impl<T: Copy> Matrix<T> {
    /// Allocate a fresh `rows` by `cols` matrix filled with `fill`, fully
    /// contiguous in the requested layout. Output buffers for native
    /// routines are made here, always in the layout of the input operand.
    pub fn matrix_with_layout(rows: usize, cols: usize, layout: Layout, fill: T) -> (r: Matrix<T>)
        requires
            rows * cols <= usize::MAX,
        ensures
            r.wf(),
            r.rows == rows,
            r.cols == cols,
            layout is RowMajor ==> r.row_stride == cols && r.col_stride == 1,
            layout is ColumnMajor ==> r.row_stride == 1 && r.col_stride == rows,
            r.spec_adapt() is Some,
            r.data@.len() == rows * cols,
            forall|k: int| 0 <= k < rows * cols ==> r.data@[k] == fill,
    {
        let n: usize = rows * cols;
        let mut data: Vec<T> = Vec::new();
        while data.len() < n
            invariant
                data@.len() <= n,
                forall|k: int| 0 <= k < data@.len() ==> data@[k] == fill,
            decreases n - data@.len(),
        {
            data.push(fill);
        }
        let (row_stride, col_stride): (usize, usize) = match layout {
            Layout::RowMajor => (cols, 1),
            Layout::ColumnMajor => (1, rows),
        };
        proof {
            if rows > 0 && cols > 0 {
                assert((rows - 1) * cols + (cols - 1) * 1 < rows * cols) by (nonlinear_arith)
                    requires
                        rows > 0,
                        cols > 0,
                ;
                assert((rows - 1) * 1 + (cols - 1) * rows < rows * cols) by (nonlinear_arith)
                    requires
                        rows > 0,
                        cols > 0,
                ;
            }
        }
        Matrix { data, rows, cols, row_stride, col_stride }
    }

    /// Deep-copy the operand, element by element in logical order, into a
    /// fresh fully contiguous row-major matrix. The copy-form entry points
    /// work on such a copy so the caller's operand stays untouched; it also
    /// normalizes any supported or irregular view into a plain block.
    pub fn deep_copy(&self) -> (r: Matrix<T>)
        requires
            self.wf(),
            self.rows * self.cols <= usize::MAX,
        ensures
            r.wf(),
            is_row_major_copy(*self, r),
            r.spec_adapt() == Some((Layout::RowMajor, r.cols)),
    {
        let rows = self.rows;
        let cols = self.cols;
        let mut data: Vec<T> = Vec::new();
        let mut i: usize = 0;
        while i < rows
            invariant
                i <= rows,
                rows == self.rows,
                cols == self.cols,
                self.wf(),
                rows * cols <= usize::MAX,
                data@.len() == i * cols,
                forall|a: int, b: int|
                    0 <= a < i && 0 <= b < cols ==> data@[a * cols + b] == self.entry(a, b),
            decreases rows - i,
        {
            let mut j: usize = 0;
            proof {
                assert(i * cols + cols <= rows * cols) by (nonlinear_arith)
                    requires
                        i < rows,
                        0 <= cols,
                ;
            }
            while j < cols
                invariant
                    j <= cols,
                    i < rows,
                    rows == self.rows,
                    cols == self.cols,
                    self.wf(),
                    i * cols + cols <= rows * cols <= usize::MAX,
                    data@.len() == i * cols + j,
                    forall|a: int, b: int|
                        0 <= a < i && 0 <= b < cols ==> data@[a * cols + b] == self.entry(a, b),
                    forall|b: int| 0 <= b < j ==> data@[i * cols + b] == self.entry(i as int, b),
                decreases cols - j,
            {
                let v: T = *self.get(i, j);
                data.push(v);
                proof {
                    assert forall|a: int, b: int| 0 <= a < i && 0 <= b < cols implies data@[a * cols
                        + b] == self.entry(a, b) by {
                        assert(0 <= a * cols + b < i * cols + j) by (nonlinear_arith)
                            requires
                                0 <= a < i,
                                0 <= b < cols,
                                0 <= j,
                        ;
                    }
                }
                j = j + 1;
            }
            proof {
                assert((i + 1) * cols == i * cols + cols) by (nonlinear_arith);
                assert forall|a: int, b: int| 0 <= a < i + 1 && 0 <= b < cols implies data@[a * cols
                    + b] == self.entry(a, b) by {
                    if a == i {
                        assert(data@[i * cols + b] == self.entry(i as int, b));
                    }
                }
            }
            i = i + 1;
        }
        proof {
            if rows > 0 && cols > 0 {
                assert((rows - 1) * cols + (cols - 1) * 1 < rows * cols) by (nonlinear_arith)
                    requires
                        rows > 0,
                        cols > 0,
                ;
            }
        }
        let r = Matrix { data, rows, cols, row_stride: cols, col_stride: 1 };
        proof {
            assert forall|a: int, b: int| 0 <= a < rows && 0 <= b < cols implies r.entry(a, b)
                == self.entry(a, b) by {
                assert(r.entry(a, b) == r.data@[a * cols + b]);
            }
        }
        r
    }
}

/// Law: the copy-form working copy is a function of the input operand
/// alone. Any two copies taken of the same operand agree in shape, strides,
/// and every element of their backing storage, so repeated copy-form calls
/// hand the native routine identical arguments.
pub proof fn lemma_deep_copy_deterministic<T>(src: Matrix<T>, c1: Matrix<T>, c2: Matrix<T>)
    requires
        is_row_major_copy(src, c1),
        is_row_major_copy(src, c2),
    ensures
        c1.rows == c2.rows,
        c1.cols == c2.cols,
        c1.row_stride == c2.row_stride,
        c1.col_stride == c2.col_stride,
        c1.data@ == c2.data@,
{
    let rows = src.rows as int;
    let cols = src.cols as int;
    assert forall|k: int| 0 <= k < c1.data@.len() implies c1.data@[k] == c2.data@[k] by {
        assert(cols > 0) by (nonlinear_arith)
            requires
                0 <= k < rows * cols,
                0 <= rows,
                0 <= cols,
        ;
        let i = k / cols;
        let j = k % cols;
        lemma_fundamental_div_mod(k, cols);
        assert(0 <= j < cols) by (nonlinear_arith)
            requires
                cols > 0,
                j == k % cols,
        ;
        assert(0 <= i < rows) by (nonlinear_arith)
            requires
                cols > 0,
                0 <= k < rows * cols,
                k == i * cols + j,
                0 <= j < cols,
        ;
        assert(c1.entry(i, j) == c2.entry(i, j));
        assert(c1.data@[i * cols + j] == c2.data@[i * cols + j]);
    }
    assert(c1.data@ =~= c2.data@);
}

} // verus!

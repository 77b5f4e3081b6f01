use rula::eigen::EigenError;
use rula::matrix::Matrix;
use rula::svd::SVDError;
use rula::types::{Error, Layout, LeastSquaresError, SolveError, Symmetric};

#[test]
fn shape_vec_entries_are_row_major() {
    let m = Matrix::from_shape_vec(2, 3, vec![1.0f32, 2.0, 3.0, 4.0, 5.0, 6.0]);
    assert_eq!(*m.get(0, 0), 1.0);
    assert_eq!(*m.get(0, 2), 3.0);
    assert_eq!(*m.get(1, 0), 4.0);
    assert_eq!(*m.get(1, 2), 6.0);
    assert_eq!(m.adapt(), Some((Layout::RowMajor, 3)));
}

#[test]
fn adapter_accepts_column_major_views() {
    // A transposed (column-major) view: rows are one element apart, columns
    // a full column apart.
    let m = Matrix::from_strides(2, 3, 1, 2, vec![1.0f32, 4.0, 2.0, 5.0, 3.0, 6.0]);
    assert_eq!(m.adapt(), Some((Layout::ColumnMajor, 2)));
    assert_eq!(*m.get(0, 1), 2.0);
    assert_eq!(*m.get(1, 2), 6.0);
}

#[test]
fn adapter_accepts_padded_leading_dimension() {
    // A row-major block whose rows are padded: leading dimension 5 for 3
    // columns is still one contiguous addressable block.
    let m = Matrix::from_strides(2, 3, 5, 1, vec![0.0f32; 8]);
    assert_eq!(m.adapt(), Some((Layout::RowMajor, 5)));
}

#[test]
fn adapter_rejects_irregular_strides() {
    // Neither stride is 1: no contiguous row- or column-major reading exists.
    let m = Matrix::from_strides(2, 2, 4, 2, vec![0.0f32; 8]);
    assert_eq!(m.adapt(), None);
}

#[test]
fn allocation_in_requested_layout() {
    let m = Matrix::matrix_with_layout(2, 3, Layout::RowMajor, 0.0f32);
    assert_eq!((m.rows, m.cols), (2, 3));
    assert_eq!((m.row_stride, m.col_stride), (3, 1));
    assert!(m.data.iter().all(|&x| x == 0.0));

    let m = Matrix::matrix_with_layout(2, 3, Layout::ColumnMajor, 0.0f32);
    assert_eq!((m.row_stride, m.col_stride), (1, 2));
    assert_eq!(m.data.len(), 6);
}

#[test]
fn deep_copy_preserves_entries_and_normalizes_layout() {
    // Deep-copying a column-major view yields the same entries in a plain
    // row-major block, whatever order the input was stored in.
    let m = Matrix::from_strides(2, 2, 1, 2, vec![1.0f32, 3.0, 2.0, 4.0]);
    let c = m.deep_copy();
    assert_eq!((c.row_stride, c.col_stride), (2, 1));
    assert_eq!(c.data, vec![1.0f32, 2.0, 3.0, 4.0]);
    assert_eq!(c.adapt(), Some((Layout::RowMajor, 2)));
    // The original operand is untouched.
    assert_eq!(m.data, vec![1.0f32, 3.0, 2.0, 4.0]);
}

#[test]
fn copy_form_is_deterministic() {
    // Two copy-form preparations of the same immutable operand hand the
    // native routine bit-for-bit identical working copies. (The mutate form
    // is deliberately not idempotent: it overwrites its operand, so a second
    // mutate-form call starts from different data.)
    let m = Matrix::from_shape_vec(2, 2, vec![1.0f32, 2.0, -2.0, 1.0]);
    let c1 = m.deep_copy();
    let c2 = m.deep_copy();
    assert_eq!(c1.data, c2.data);
    assert_eq!((c1.rows, c1.cols), (c2.rows, c2.cols));
    assert_eq!((c1.row_stride, c1.col_stride), (c2.row_stride, c2.col_stride));
}

#[test]
fn triangle_selector_bytes() {
    assert_eq!(Symmetric::Upper.as_byte(), b'U');
    assert_eq!(Symmetric::Lower.as_byte(), b'L');
}

#[test]
fn universal_error_wraps_each_family() {
    assert_eq!(
        Error::from(SVDError::Unconverged),
        Error::SVD(SVDError::Unconverged)
    );
    assert_eq!(
        Error::from(EigenError::NotSquare),
        Error::Eigen(EigenError::NotSquare)
    );
    assert_eq!(
        Error::from(LeastSquaresError::Degenerate),
        Error::LeastSquares(LeastSquaresError::Degenerate)
    );
    assert_eq!(
        Error::from(SolveError::Singular),
        Error::SolveLinear(SolveError::Singular)
    );
}

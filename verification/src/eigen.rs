//! Driver for symmetric/Hermitian eigendecomposition.
//!
//! The driver validates the operand, negotiates its memory layout, and
//! plans the native call ([`sym_eigen_plan`]); the native routine then
//! overwrites the operand (with the eigenvectors as columns, when they are
//! requested) and fills the value buffer; its status code is translated
//! back into a typed result ([`sym_eigen_result`], [`sym_eigen_solution`]).
//!
//! Eigenvalues of a symmetric or Hermitian matrix are real, so the value
//! element type `R` is the real-part kind of the operand element type `T`.

use vstd::prelude::*;
use crate::matrix::Matrix;
use crate::types::{Layout, Symmetric};

verus! {

/// Errors of the eigendecomposition family.
#[derive(Clone, Copy, PartialEq, Eq, Structural, Debug)]
pub enum EigenError {
    /// The operand is not square.
    NotSquare,
    /// The operand's storage is not addressable in a supported layout.
    BadLayout,
    /// The native routine reported the 1-based `k`-th argument as invalid.
    BadParameter(i32),
    /// The eigendecomposition did not converge.
    Failed,
}

/// ASCII `'V'`: job flag asking the native routine for eigenvectors.
pub const JOB_VECTORS: u8 = 86;

/// ASCII `'N'`: job flag asking the native routine for values only.
pub const JOB_VALUES_ONLY: u8 = 78;

/// The job flag for an eigendecomposition call.
pub open spec fn spec_eigen_job(with_vectors: bool) -> u8 {
    if with_vectors {
        JOB_VECTORS
    } else {
        JOB_VALUES_ONLY
    }
}

/// Everything a native symmetric/Hermitian eigensolve call needs besides
/// the buffers themselves: the problem size, the job and triangle bytes,
/// and the negotiated layout of the operand.
pub struct EigenPlan {
    /// Dimension of the square operand.
    pub n: usize,
    /// Job flag byte: [`JOB_VECTORS`] or [`JOB_VALUES_ONLY`].
    pub job: u8,
    /// Triangle selector byte: `'U'` or `'L'`.
    pub uplo: u8,
    /// Element order of the operand's storage.
    pub layout: Layout,
    /// Leading dimension of the operand's storage.
    pub ld: usize,
    /// Length of the real-valued output buffer for the eigenvalues.
    pub values_len: usize,
}

/// Holds when `p` is the plan owed for operand shape `rows` x `cols` with
/// adapter outcome `(layout, ld)` and the given request.
pub open spec fn eigen_plan_matches(
    p: EigenPlan,
    rows: usize,
    uplo: Symmetric,
    with_vectors: bool,
    layout: Layout,
    ld: usize,
) -> bool {
    &&& p.n == rows
    &&& p.job == spec_eigen_job(with_vectors)
    &&& p.uplo == uplo.spec_byte()
    &&& p.layout == layout
    &&& p.ld == ld
    &&& p.values_len == rows
}

/// Validate a symmetric/Hermitian eigendecomposition operand and plan the
/// native call.
///
/// A non-square operand is rejected with `NotSquare` before anything else
/// is looked at — in particular before the layout adapter runs, so it is
/// never masked by `BadLayout`. A square operand whose storage the adapter
/// cannot expose is rejected with `BadLayout`. Otherwise the returned plan
/// pins the job byte, triangle byte, dimension, value-buffer length, and
/// the negotiated layout.
pub fn sym_eigen_plan<T>(mat: &Matrix<T>, uplo: Symmetric, with_vectors: bool) -> (r: Result<
    EigenPlan,
    EigenError,
>)
    ensures
        mat.rows != mat.cols ==> r == Err::<EigenPlan, EigenError>(EigenError::NotSquare),
        mat.rows == mat.cols && mat.spec_adapt() is None ==> r == Err::<EigenPlan, EigenError>(
            EigenError::BadLayout,
        ),
        mat.rows == mat.cols ==> (mat.spec_adapt() matches Some(a) ==> (r matches Ok(p)
            && eigen_plan_matches(p, mat.rows, uplo, with_vectors, a.0, a.1))),
{
    if mat.rows != mat.cols {
        return Err(EigenError::NotSquare);
    }
    let adapted = mat.adapt();
    match adapted {
        None => Err(EigenError::BadLayout),
        Some((layout, ld)) => {
            let job: u8 = if with_vectors {
                JOB_VECTORS
            } else {
                JOB_VALUES_ONLY
            };
            Ok(
                EigenPlan {
                    n: mat.rows,
                    job,
                    uplo: uplo.as_byte(),
                    layout,
                    ld,
                    values_len: mat.rows,
                },
            )
        },
    }
}

/// Translate the native status code of a mutate-form eigensolve call.
///
/// The status trichotomy: `0` is success and hands the filled value buffer
/// back; a negative code `-k` means the `k`-th routine argument (1-based)
/// was invalid; a positive code means the iteration failed to converge.
pub fn sym_eigen_result<R>(values: Vec<R>, info: i32) -> (r: Result<Vec<R>, EigenError>)
    requires
        info > i32::MIN,
    ensures
        info == 0 ==> r == Ok::<Vec<R>, EigenError>(values),
        info < 0 ==> (r matches Err(e) && e matches EigenError::BadParameter(k) && k == -(
        info as int)),
        info > 0 ==> r == Err::<Vec<R>, EigenError>(EigenError::Failed),
{
    if info == 0 {
        Ok(values)
    } else if info < 0 {
        Err(EigenError::BadParameter(-info))
    } else {
        Err(EigenError::Failed)
    }
}

/// The result of a copy-form eigendecomposition: the real eigenvalues in
/// ascending order (native convention), and the eigenvectors when they
/// were requested. Constructed once by the driver on success; the left
/// field stays absent because symmetric/Hermitian eigenvectors serve as
/// both left and right vectors.
pub struct Solution<T, R> {
    /// The computed eigenvalues, always of the real-part kind.
    pub values: Vec<R>,
    /// Always absent for this operation family.
    pub left_vectors: Option<Matrix<T>>,
    /// The eigenvector matrix (vectors as columns, column `i` matching
    /// value `i`), present exactly when vectors were requested.
    pub right_vectors: Option<Matrix<T>>,
}

/// Complete a copy-form eigendecomposition: translate the status code and,
/// on success, package the value buffer and the overwritten working copy
/// (which then holds the eigenvectors) into a [`Solution`].
///
/// The eigenvector matrix is present in the solution if and only if
/// vectors were requested at the call site.
pub fn sym_eigen_solution<T, R>(
    mat: Matrix<T>,
    values: Vec<R>,
    info: i32,
    with_vectors: bool,
) -> (r: Result<Solution<T, R>, EigenError>)
    requires
        info > i32::MIN,
    ensures
        info == 0 ==> (r matches Ok(s) && {
            &&& s.values == values
            &&& s.left_vectors is None
            &&& (with_vectors ==> s.right_vectors == Some(mat))
            &&& (!with_vectors ==> s.right_vectors is None)
        }),
        info < 0 ==> (r matches Err(e) && e matches EigenError::BadParameter(k) && k == -(
        info as int)),
        info > 0 ==> r == Err::<Solution<T, R>, EigenError>(EigenError::Failed),
{
    match sym_eigen_result(values, info) {
        Ok(values) => Ok(
            Solution {
                values,
                left_vectors: None,
                right_vectors: if with_vectors {
                    Some(mat)
                } else {
                    None
                },
            },
        ),
        Err(e) => Err(e),
    }
}

} // verus!

//! Shared enums of the dispatch layer: triangle selection, memory layout,
//! and the crate-wide error type.

use vstd::prelude::*;
use crate::eigen::EigenError;
use crate::svd::SVDError;

verus! {

/// Which triangular half of a symmetric/Hermitian operand holds the valid
/// input data. The other half is never read by the routines.
#[derive(Clone, Copy, PartialEq, Eq, Structural, Debug)]
pub enum Symmetric {
    /// Read elements from the upper-triangular portion of the matrix.
    Upper,
    /// Read elements from the lower-triangular portion of the matrix.
    Lower,
}

/// ASCII `'U'`: the native encoding of [`Symmetric::Upper`].
pub const UPLO_UPPER: u8 = 85;

/// ASCII `'L'`: the native encoding of [`Symmetric::Lower`].
pub const UPLO_LOWER: u8 = 76;

impl Symmetric {
    /// The byte this selector is encoded as in the native calling convention.
    pub open spec fn spec_byte(self) -> u8 {
        match self {
            Symmetric::Upper => UPLO_UPPER,
            Symmetric::Lower => UPLO_LOWER,
        }
    }

    /// Encode the selector for a native call: `'U'` for upper, `'L'` for lower.
    pub fn as_byte(self) -> (r: u8)
        ensures
            r == self.spec_byte(),
    {
        match self {
            Symmetric::Upper => UPLO_UPPER,
            Symmetric::Lower => UPLO_LOWER,
        }
    }
}

/// Element order of a matrix operand's backing storage.
#[derive(Clone, Copy, PartialEq, Eq, Structural, Debug)]
pub enum Layout {
    /// Successive rows are contiguous; the leading dimension counts columns.
    RowMajor,
    /// Successive columns are contiguous; the leading dimension counts rows.
    ColumnMajor,
}

/// Errors of the linear-system solve family.
///
/// The solve driver follows the same status-code trichotomy as the other
/// operation families; a positive native status there marks an exactly
/// singular factor.
#[derive(Clone, Copy, PartialEq, Eq, Structural, Debug)]
pub enum SolveError {
    /// The coefficient matrix is not square.
    NotSquare,
    /// The operand's storage is not addressable in a supported layout.
    BadLayout,
    /// The native routine reported the 1-based `k`-th argument as invalid.
    BadParameter(i32),
    /// The factorization produced an exactly singular factor.
    Singular,
}

/// Errors of the least-squares family.
///
/// Least squares places no squareness precondition; a positive native
/// status marks a rank-deficient system the routine could not complete.
#[derive(Clone, Copy, PartialEq, Eq, Structural, Debug)]
pub enum LeastSquaresError {
    /// The operand's storage is not addressable in a supported layout.
    BadLayout,
    /// The native routine reported the 1-based `k`-th argument as invalid.
    BadParameter(i32),
    /// The system was detected as rank-deficient mid-computation.
    Degenerate,
}

/// Crate-wide error enum.
///
/// This enum can be used as a catch-all for errors from any of the
/// operation families.
#[derive(Clone, Copy, PartialEq, Eq, Structural, Debug)]
pub enum Error {
    /// An error from singular value decomposition.
    SVD(SVDError),
    /// An error from eigendecomposition.
    Eigen(EigenError),
    /// An error from least-squares computation.
    LeastSquares(LeastSquaresError),
    /// An error from solving a linear system.
    SolveLinear(SolveError),
}

impl From<SVDError> for Error {
    fn from(e: SVDError) -> (r: Error) {
        Error::SVD(e)
    }
}

impl vstd::std_specs::convert::FromSpecImpl<SVDError> for Error {
    open spec fn obeys_from_spec() -> bool {
        true
    }

    open spec fn from_spec(e: SVDError) -> Error {
        Error::SVD(e)
    }
}

impl From<EigenError> for Error {
    fn from(e: EigenError) -> (r: Error) {
        Error::Eigen(e)
    }
}

impl vstd::std_specs::convert::FromSpecImpl<EigenError> for Error {
    open spec fn obeys_from_spec() -> bool {
        true
    }

    open spec fn from_spec(e: EigenError) -> Error {
        Error::Eigen(e)
    }
}

impl From<LeastSquaresError> for Error {
    fn from(e: LeastSquaresError) -> (r: Error) {
        Error::LeastSquares(e)
    }
}

impl vstd::std_specs::convert::FromSpecImpl<LeastSquaresError> for Error {
    open spec fn obeys_from_spec() -> bool {
        true
    }

    open spec fn from_spec(e: LeastSquaresError) -> Error {
        Error::LeastSquares(e)
    }
}

impl From<SolveError> for Error {
    fn from(e: SolveError) -> (r: Error) {
        Error::SolveLinear(e)
    }
}

impl vstd::std_specs::convert::FromSpecImpl<SolveError> for Error {
    open spec fn obeys_from_spec() -> bool {
        true
    }

    open spec fn from_spec(e: SolveError) -> Error {
        Error::SolveLinear(e)
    }
}

} // verus!

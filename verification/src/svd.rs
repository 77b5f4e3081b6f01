//! Driver for general singular value decomposition.
//!
//! Besides operand validation and layout negotiation (shared with the
//! eigendecomposition driver), this driver owns the method-selection
//! policy: it chooses between a robust bidiagonal-reduction routine and a
//! faster divide-and-conquer routine, based on the problem size and which
//! singular-vector sets are requested. The divide-and-conquer binding can
//! only produce vectors all-or-nothing, so on small problems a request for
//! either vector set is upgraded to a request for both; the policy itself
//! is never exposed to the caller, only which outputs come back.

use vstd::prelude::*;
use crate::matrix::Matrix;
use crate::types::Layout;

verus! {

/// Errors of the singular value decomposition family.
#[derive(Clone, Copy, PartialEq, Eq, Structural, Debug)]
pub enum SVDError {
    /// The decomposition did not converge.
    Unconverged,
    /// The native routine reported an invalid argument, as a 0-based index.
    IllegalParameter(i32),
    /// The operand's storage is not addressable in a supported layout.
    BadLayout,
}

/// The two native algorithm variants an SVD call can be routed to.
#[derive(Clone, Copy, PartialEq, Eq, Structural, Debug)]
pub enum SVDMethod {
    /// The robust bidiagonal-reduction routine. Scales worse, but honors a
    /// request for just one of the two singular-vector sets.
    Normal,
    /// The divide-and-conquer routine. Faster on small and medium
    /// problems, but computes singular-vector sets all-or-nothing.
    DivideAndConquer,
}

/// Largest problem extent for which the divide-and-conquer routine is
/// chosen when singular vectors are requested.
pub const SVD_NORMAL_LIMIT: usize = 200;

/// ASCII `'A'`: job flag asking the native routine for all vectors of one set.
pub const JOB_ALL: u8 = 65;

/// ASCII `'N'`: job flag asking the native routine for no vectors of one set.
pub const JOB_NONE: u8 = 78;

/// The method-selection policy, as a function of the operand shape and of
/// whether either singular-vector set is requested.
///
/// When no vectors are wanted, divide-and-conquer is always cheapest. When
/// vectors are wanted, the robust routine is reserved for problems whose
/// larger extent exceeds [`SVD_NORMAL_LIMIT`], where computing only the
/// requested set materially saves work.
pub open spec fn spec_select_svd_method(
    rows: usize,
    cols: usize,
    compute_either: bool,
) -> SVDMethod {
    let mx = if rows >= cols {
        rows
    } else {
        cols
    };
    if compute_either && mx > SVD_NORMAL_LIMIT {
        SVDMethod::Normal
    } else {
        SVDMethod::DivideAndConquer
    }
}

/// Choose the algorithm variant for a problem.
pub fn select_svd_method(rows: usize, cols: usize, compute_either: bool) -> (m: SVDMethod)
    ensures
        m == spec_select_svd_method(rows, cols, compute_either),
{
    let mx = if rows >= cols {
        rows
    } else {
        cols
    };
    if compute_either {
        if mx > SVD_NORMAL_LIMIT {
            SVDMethod::Normal
        } else {
            SVDMethod::DivideAndConquer
        }
    } else {
        SVDMethod::DivideAndConquer
    }
}

/// Whether the driver computes left singular vectors, given the caller's
/// two request flags: on the divide-and-conquer path a request for either
/// set is upgraded to both.
pub open spec fn effective_compute_u(
    rows: usize,
    cols: usize,
    compute_u: bool,
    compute_vt: bool,
) -> bool {
    if spec_select_svd_method(rows, cols, compute_u || compute_vt) is DivideAndConquer {
        compute_u || compute_vt
    } else {
        compute_u
    }
}

/// Whether the driver computes right singular vectors; the mirror of
/// [`effective_compute_u`].
pub open spec fn effective_compute_vt(
    rows: usize,
    cols: usize,
    compute_u: bool,
    compute_vt: bool,
) -> bool {
    if spec_select_svd_method(rows, cols, compute_u || compute_vt) is DivideAndConquer {
        compute_u || compute_vt
    } else {
        compute_vt
    }
}

/// The smaller extent of the operand: the number of singular values.
pub open spec fn spec_min_dim(rows: usize, cols: usize) -> usize {
    if rows <= cols {
        rows
    } else {
        cols
    }
}

/// Everything a native SVD call needs besides the buffers themselves: the
/// chosen method, the effective vector flags after the policy's override,
/// the job bytes, the output buffer shapes, and the negotiated layout.
pub struct SVDPlan {
    /// The algorithm variant the call is routed to.
    pub method: SVDMethod,
    /// Whether left singular vectors are computed, after the override.
    pub compute_u: bool,
    /// Whether right singular vectors are computed, after the override.
    pub compute_vt: bool,
    /// Job byte for the left vectors: [`JOB_ALL`] or [`JOB_NONE`].
    pub job_u: u8,
    /// Job byte for the right vectors: [`JOB_ALL`] or [`JOB_NONE`].
    pub job_vt: u8,
    /// Length of the real-valued singular-value buffer: `min(rows, cols)`.
    pub s_len: usize,
    /// Extent of the square left-vector buffer: `rows`, or `0` when unused.
    pub u_dim: usize,
    /// Extent of the square right-vector buffer: `cols`, or `0` when unused.
    pub vt_dim: usize,
    /// Length of the scratch buffer the robust routine's calling
    /// convention requires: `min(rows, cols) - 2` (zero when the smaller
    /// extent is below two, or on the divide-and-conquer path).
    pub superb_len: usize,
    /// Element order of the operand's storage.
    pub layout: Layout,
    /// Leading dimension of the operand's storage.
    pub ld: usize,
}

/// Holds when `p` is the plan owed for an operand of shape `rows` x `cols`
/// with adapter outcome `(layout, ld)` and the caller's two request flags.
pub open spec fn svd_plan_matches(
    p: SVDPlan,
    rows: usize,
    cols: usize,
    compute_u: bool,
    compute_vt: bool,
    layout: Layout,
    ld: usize,
) -> bool {
    let eu = effective_compute_u(rows, cols, compute_u, compute_vt);
    let evt = effective_compute_vt(rows, cols, compute_u, compute_vt);
    &&& p.method == spec_select_svd_method(rows, cols, compute_u || compute_vt)
    &&& p.compute_u == eu
    &&& p.compute_vt == evt
    &&& p.job_u == (if eu {
        JOB_ALL
    } else {
        JOB_NONE
    })
    &&& p.job_vt == (if evt {
        JOB_ALL
    } else {
        JOB_NONE
    })
    &&& p.s_len == spec_min_dim(rows, cols)
    &&& p.u_dim == (if eu {
        rows as int
    } else {
        0
    })
    &&& p.vt_dim == (if evt {
        cols as int
    } else {
        0
    })
    &&& p.superb_len == (if p.method is Normal && p.s_len >= 2 {
        p.s_len - 2
    } else {
        0
    })
    &&& p.layout == layout
    &&& p.ld == ld
}

/// Validate an SVD operand and plan the native call.
///
/// There is no squareness precondition. An operand whose storage the
/// layout adapter cannot expose is rejected with `BadLayout`. Otherwise
/// the plan applies the method-selection policy, possibly upgrading the
/// caller's vector request (divide-and-conquer computes both sets whenever
/// either is asked for), and pins the job bytes and every buffer size: the
/// singular-value buffer of length `min(rows, cols)`, a `rows` x `rows`
/// left and `cols` x `cols` right vector buffer exactly for the sets that
/// are computed, and the robust routine's scratch buffer.
pub fn svd_plan<T>(mat: &Matrix<T>, compute_u: bool, compute_vt: bool) -> (r: Result<
    SVDPlan,
    SVDError,
>)
    ensures
        mat.spec_adapt() is None ==> r == Err::<SVDPlan, SVDError>(SVDError::BadLayout),
        mat.spec_adapt() matches Some(a) ==> (r matches Ok(p) && svd_plan_matches(
            p,
            mat.rows,
            mat.cols,
            compute_u,
            compute_vt,
            a.0,
            a.1,
        )),
{
    let adapted = mat.adapt();
    match adapted {
        None => Err(SVDError::BadLayout),
        Some((layout, ld)) => {
            let m = mat.rows;
            let n = mat.cols;
            let compute_either = compute_u || compute_vt;
            let method = select_svd_method(m, n, compute_either);
            let (eu, evt): (bool, bool) = match method {
                SVDMethod::DivideAndConquer => (compute_either, compute_either),
                SVDMethod::Normal => (compute_u, compute_vt),
            };
            let s_len = if m <= n {
                m
            } else {
                n
            };
            let superb_len: usize = match method {
                SVDMethod::Normal => if s_len >= 2 {
                    s_len - 2
                } else {
                    0
                },
                SVDMethod::DivideAndConquer => 0,
            };
            Ok(
                SVDPlan {
                    method,
                    compute_u: eu,
                    compute_vt: evt,
                    job_u: if eu {
                        JOB_ALL
                    } else {
                        JOB_NONE
                    },
                    job_vt: if evt {
                        JOB_ALL
                    } else {
                        JOB_NONE
                    },
                    s_len,
                    u_dim: if eu {
                        m
                    } else {
                        0
                    },
                    vt_dim: if evt {
                        n
                    } else {
                        0
                    },
                    superb_len,
                    layout,
                    ld,
                },
            )
        },
    }
}

/// The result of a successful SVD: the singular values, in descending
/// order (native convention), always of the real-part kind, and whichever
/// singular-vector matrices were computed. Constructed once by the driver
/// on success.
pub struct SVDSolution<T, R> {
    /// The singular values.
    pub values: Vec<R>,
    /// The left singular vectors `u`, present exactly when they were
    /// computed (requested, or upgraded by the policy).
    pub left_vectors: Option<Matrix<T>>,
    /// The transposed right singular vectors `v^t`, present exactly when
    /// they were computed.
    pub right_vectors: Option<Matrix<T>>,
}

/// Complete an SVD call: translate the native status code and, on success,
/// package the buffers into an [`SVDSolution`].
///
/// The status trichotomy: `0` is success, and the vector matrices are
/// present in the solution if and only if the plan's effective flags asked
/// for them; a negative code `-k` reports the `k`-th routine argument
/// (1-based) as invalid, re-reported here as the 0-based index `k - 1` —
/// deliberately asymmetric with the eigendecomposition driver, which
/// passes the 1-based index through; a positive code means the
/// decomposition did not converge.
pub fn svd_solution<T, R>(
    values: Vec<R>,
    u: Matrix<T>,
    vt: Matrix<T>,
    compute_u: bool,
    compute_vt: bool,
    info: i32,
) -> (r: Result<SVDSolution<T, R>, SVDError>)
    requires
        info > i32::MIN,
    ensures
        info == 0 ==> (r matches Ok(sol) && {
            &&& sol.values == values
            &&& (compute_u ==> sol.left_vectors == Some(u))
            &&& (!compute_u ==> sol.left_vectors is None)
            &&& (compute_vt ==> sol.right_vectors == Some(vt))
            &&& (!compute_vt ==> sol.right_vectors is None)
        }),
        info < 0 ==> (r matches Err(e) && e matches SVDError::IllegalParameter(k) && k == -(
        info as int) - 1),
        info > 0 ==> r == Err::<SVDSolution<T, R>, SVDError>(SVDError::Unconverged),
{
    if info == 0 {
        Ok(
            SVDSolution {
                values,
                left_vectors: if compute_u {
                    Some(u)
                } else {
                    None
                },
                right_vectors: if compute_vt {
                    Some(vt)
                } else {
                    None
                },
            },
        )
    } else if info < 0 {
        Err(SVDError::IllegalParameter(-info - 1))
    } else {
        Err(SVDError::Unconverged)
    }
}

/// Law: on a small problem (larger extent at most [`SVD_NORMAL_LIMIT`]),
/// requesting either singular-vector set makes the driver compute both, so
/// a successful solution carries both vector matrices even when only one
/// was asked for.
pub proof fn lemma_small_svd_request_upgraded(
    rows: usize,
    cols: usize,
    compute_u: bool,
    compute_vt: bool,
)
    requires
        rows <= SVD_NORMAL_LIMIT,
        cols <= SVD_NORMAL_LIMIT,
        compute_u || compute_vt,
    ensures
        effective_compute_u(rows, cols, compute_u, compute_vt),
        effective_compute_vt(rows, cols, compute_u, compute_vt),
{
}

/// Law: on a large problem (larger extent above [`SVD_NORMAL_LIMIT`]) the
/// robust routine is chosen and the caller's original request flags are
/// honored unchanged, so exactly the requested vector matrices come back.
pub proof fn lemma_large_svd_flags_honored(
    rows: usize,
    cols: usize,
    compute_u: bool,
    compute_vt: bool,
)
    requires
        rows > SVD_NORMAL_LIMIT || cols > SVD_NORMAL_LIMIT,
        compute_u || compute_vt,
    ensures
        spec_select_svd_method(rows, cols, compute_u || compute_vt) is Normal,
        effective_compute_u(rows, cols, compute_u, compute_vt) == compute_u,
        effective_compute_vt(rows, cols, compute_u, compute_vt) == compute_vt,
{
}

/// Law: when no singular vectors are requested, the divide-and-conquer
/// routine is chosen whatever the shape, and no vector set is computed.
pub proof fn lemma_values_only_uses_divide_and_conquer(rows: usize, cols: usize)
    ensures
        spec_select_svd_method(rows, cols, false) is DivideAndConquer,
        !effective_compute_u(rows, cols, false, false),
        !effective_compute_vt(rows, cols, false, false),
{
}

} // verus!

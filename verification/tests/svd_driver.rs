use rula::matrix::Matrix;
use rula::svd::{select_svd_method, svd_plan, svd_solution, SVDError, SVDMethod};
use rula::types::Layout;

#[test]
fn method_selection_boundaries() {
    // Values only: always divide-and-conquer, whatever the shape.
    assert_eq!(select_svd_method(201, 1, false), SVDMethod::DivideAndConquer);
    assert_eq!(select_svd_method(1, 201, false), SVDMethod::DivideAndConquer);
    // Vectors wanted: divide-and-conquer up to the limit, robust above it.
    assert_eq!(select_svd_method(200, 200, true), SVDMethod::DivideAndConquer);
    assert_eq!(select_svd_method(201, 1, true), SVDMethod::Normal);
    assert_eq!(select_svd_method(1, 201, true), SVDMethod::Normal);
}

#[test]
fn small_svd_single_request_yields_both() {
    // On a small problem, asking for left vectors only still computes both
    // vector sets: the divide-and-conquer binding is all-or-nothing.
    let m = Matrix::from_shape_vec(3, 2, vec![0.0f32; 6]);
    let p = svd_plan(&m, true, false).unwrap();
    assert_eq!(p.method, SVDMethod::DivideAndConquer);
    assert!(p.compute_u);
    assert!(p.compute_vt);
    assert_eq!(p.u_dim, 3);
    assert_eq!(p.vt_dim, 2);
    assert_eq!(p.job_u, b'A');
    assert_eq!(p.job_vt, b'A');

    // And a successful call then hands both matrices back.
    let u = Matrix::from_shape_vec(3, 3, vec![0.0f32; 9]);
    let vt = Matrix::from_shape_vec(2, 2, vec![0.0f32; 4]);
    let sol = svd_solution(vec![0.0f32, 0.0], u, vt, p.compute_u, p.compute_vt, 0).unwrap();
    assert!(sol.left_vectors.is_some());
    assert!(sol.right_vectors.is_some());
}

#[test]
fn large_svd_honors_original_flags() {
    // Above the limit the robust routine is chosen and the caller's flags
    // stand: left vectors only means no right-vector matrix in the result.
    let m = Matrix::from_shape_vec(201, 2, vec![0.0f32; 402]);
    let p = svd_plan(&m, true, false).unwrap();
    assert_eq!(p.method, SVDMethod::Normal);
    assert!(p.compute_u);
    assert!(!p.compute_vt);
    assert_eq!(p.u_dim, 201);
    assert_eq!(p.vt_dim, 0);
    assert_eq!(p.job_u, b'A');
    assert_eq!(p.job_vt, b'N');
    assert_eq!(p.s_len, 2);
    assert_eq!(p.superb_len, 0);

    let u = Matrix::from_shape_vec(201, 201, vec![0.0f32; 201 * 201]);
    let vt = Matrix::from_shape_vec(0, 0, vec![]);
    let sol = svd_solution(vec![0.0f32, 0.0], u, vt, p.compute_u, p.compute_vt, 0).unwrap();
    assert!(sol.left_vectors.is_some());
    assert!(sol.right_vectors.is_none());
}

#[test]
fn values_only_plan() {
    let m = Matrix::from_shape_vec(4, 3, vec![0.0f32; 12]);
    let p = svd_plan(&m, false, false).unwrap();
    assert_eq!(p.method, SVDMethod::DivideAndConquer);
    assert!(!p.compute_u);
    assert!(!p.compute_vt);
    assert_eq!(p.u_dim, 0);
    assert_eq!(p.vt_dim, 0);
    assert_eq!(p.job_u, b'N');
    assert_eq!(p.job_vt, b'N');
    assert_eq!(p.s_len, 3);
}

#[test]
fn robust_scratch_buffer_length() {
    // The robust routine needs a scratch buffer of length min(rows, cols) - 2.
    let m = Matrix::from_shape_vec(201, 5, vec![0.0f32; 1005]);
    let p = svd_plan(&m, false, true).unwrap();
    assert_eq!(p.method, SVDMethod::Normal);
    assert_eq!(p.s_len, 5);
    assert_eq!(p.superb_len, 3);
}

#[test]
fn svd_bad_layout() {
    let m = Matrix::from_strides(2, 2, 4, 2, vec![0.0f32; 8]);
    let r = svd_plan(&m, true, true);
    assert_eq!(r.err().unwrap(), SVDError::BadLayout);
}

#[test]
fn svd_plan_two_by_two_scenario() {
    // compute_into on [[1, 2], [-2, 1]] asking for right vectors only:
    // two singular values are owed, and the small-problem override computes
    // both vector sets.
    let m = Matrix::from_shape_vec(2, 2, vec![1.0f32, 2.0, -2.0, 1.0]);
    let p = svd_plan(&m, false, true).unwrap();
    assert_eq!(p.s_len, 2);
    assert!(p.compute_u);
    assert!(p.compute_vt);
    assert_eq!(p.layout, Layout::RowMajor);
    assert_eq!(p.ld, 2);

    let u = Matrix::from_shape_vec(2, 2, vec![0.0f32; 4]);
    let vt = Matrix::from_shape_vec(2, 2, vec![0.0f32; 4]);
    let sol = svd_solution(vec![0.0f32, 0.0], u, vt, p.compute_u, p.compute_vt, 0).unwrap();
    assert_eq!(sol.values.len(), 2);
}

#[test]
fn svd_status_negative_is_zero_based_parameter() {
    // The SVD driver converts the native 1-based index to 0-based — unlike
    // the eigendecomposition driver, which passes the 1-based index through.
    let u = Matrix::from_shape_vec(0, 0, vec![]);
    let vt = Matrix::from_shape_vec(0, 0, vec![]);
    let r = svd_solution::<f32, f32>(vec![], u, vt, false, false, -1);
    assert_eq!(r.err().unwrap(), SVDError::IllegalParameter(0));

    let u = Matrix::from_shape_vec(0, 0, vec![]);
    let vt = Matrix::from_shape_vec(0, 0, vec![]);
    let r = svd_solution::<f32, f32>(vec![], u, vt, false, false, -4);
    assert_eq!(r.err().unwrap(), SVDError::IllegalParameter(3));
}

#[test]
fn svd_status_positive_is_unconverged() {
    let u = Matrix::from_shape_vec(0, 0, vec![]);
    let vt = Matrix::from_shape_vec(0, 0, vec![]);
    let r = svd_solution::<f32, f32>(vec![], u, vt, false, false, 3);
    assert_eq!(r.err().unwrap(), SVDError::Unconverged);
}

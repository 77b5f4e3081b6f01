//! Dispatch layer for dense linear-algebra decompositions.
//!
//! The crate routes symmetric/Hermitian eigendecomposition and general
//! singular value decomposition to native routines. It owns the policy
//! around those routines: operand validation, memory-layout negotiation,
//! the SVD method-selection heuristic, and the translation of native
//! status codes into typed errors. The native calls themselves work on
//! machine floating-point buffers and live outside this crate; every
//! decision that surrounds them is verified here.

pub mod eigen;
pub mod matrix;
pub mod svd;
pub mod types;

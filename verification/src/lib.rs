//! A forward-backward splitting (FBS) solver core for constrained smooth
//! minimization, built for embedded control loops: a workspace is allocated
//! once, and every later problem definition, engine and solve runs without
//! touching the heap.
//!
//! The numeric engine is generic over a [`scalar::Scalar`] algebra, so the
//! whole iteration - gradient step, projection onto the constraint set,
//! fixed-point residual and the driver loop - carries one exact contract
//! for every algebra. The crate ships a verified saturating `i64` algebra;
//! an embedding application may plug in its own scalar type (for instance
//! a floating-point wrapper) at its own numerical risk, exactly as it
//! plugs in its own cost and gradient evaluators.

pub mod constraints;
pub mod fbs;
pub mod matrix_operations;
pub mod scalar;
pub mod solver;

pub use crate::fbs::{CostEvaluator, FBSCache, FBSEngine, GradientEvaluator, Problem};
pub use crate::scalar::Scalar;
pub use crate::solver::{ExitReason, FBSOptimizer, SolverStatus, DEFAULT_MAX_ITERATIONS};

//! The engine and driver over the crate's own verified `i64` algebra,
//! where every step is exactly predictable.

use fbs_core::constraints::{Ball2, Constraint, NoConstraints};
use fbs_core::matrix_operations::norm2;
use fbs_core::{
    CostEvaluator, ExitReason, FBSCache, FBSEngine, FBSOptimizer, GradientEvaluator, Problem,
};

/// Gradient `u - 10` in one dimension: one step from anywhere lands on 10.
struct PullToTen;

impl GradientEvaluator<i64> for PullToTen {
    fn grad_spec(&self, _u: vstd::seq::Seq<i64>) -> vstd::seq::Seq<i64> {
        unreachable!()
    }
    fn status_spec(&self, _u: vstd::seq::Seq<i64>) -> i32 {
        unreachable!()
    }
    fn evaluate(&self, u: &Vec<i64>, grad: &mut Vec<i64>) -> i32 {
        grad[0] = u[0] - 10;
        0
    }
}

/// Constant gradient 1: the iterate drifts forever, one unit per step.
struct ConstantDrift;

impl GradientEvaluator<i64> for ConstantDrift {
    fn grad_spec(&self, _u: vstd::seq::Seq<i64>) -> vstd::seq::Seq<i64> {
        unreachable!()
    }
    fn status_spec(&self, _u: vstd::seq::Seq<i64>) -> i32 {
        unreachable!()
    }
    fn evaluate(&self, u: &Vec<i64>, grad: &mut Vec<i64>) -> i32 {
        let _ = u;
        grad[0] = 1;
        0
    }
}

/// An evaluator that can never evaluate.
struct BrokenGradient;

impl GradientEvaluator<i64> for BrokenGradient {
    fn grad_spec(&self, _u: vstd::seq::Seq<i64>) -> vstd::seq::Seq<i64> {
        unreachable!()
    }
    fn status_spec(&self, _u: vstd::seq::Seq<i64>) -> i32 {
        unreachable!()
    }
    fn evaluate(&self, u: &Vec<i64>, grad: &mut Vec<i64>) -> i32 {
        let _ = (u, grad);
        3
    }
}

struct FlatCost;

impl CostEvaluator<i64> for FlatCost {
    fn cost_spec(&self, _u: vstd::seq::Seq<i64>) -> i64 {
        unreachable!()
    }
    fn status_spec(&self, _u: vstd::seq::Seq<i64>) -> i32 {
        unreachable!()
    }
    fn evaluate(&self, u: &Vec<i64>, cost: &mut i64) -> i32 {
        let _ = u;
        *cost = 0;
        0
    }
}

#[test]
fn integer_norm2_is_integer_square_root() {
    assert_eq!(5, norm2(&vec![3i64, 4]));
    assert_eq!(2, norm2(&vec![2i64, 2]));
    assert_eq!(0, norm2(&Vec::<i64>::new()));
}

#[test]
fn no_constraints_projection_is_identity() {
    let set = NoConstraints::new();
    let mut u = vec![7i64, -3];
    set.project(&mut u);
    assert_eq!(vec![7i64, -3], u);
}

#[test]
fn integer_ball_projection() {
    let ball = Ball2::new_at_origin_with_radius(5i64);
    // On the boundary: norm2([3, 4]) == 5, not outside, so unchanged.
    let mut boundary = vec![3i64, 4];
    ball.project(&mut boundary);
    assert_eq!(vec![3i64, 4], boundary);
    // Outside: norm2([6, 8]) == 10, scale 5 / 10 truncates to 0.
    let mut outside = vec![6i64, 8];
    ball.project(&mut outside);
    assert_eq!(vec![0i64, 0], outside);
    // Projecting again changes nothing.
    ball.project(&mut outside);
    assert_eq!(vec![0i64, 0], outside);
}

#[test]
fn integer_ball_projection_with_center() {
    let ball = Ball2::new_with_center(vec![10i64, 10], 2);
    // Zero deviation from the center stays put.
    let mut at_center = vec![10i64, 10];
    ball.project(&mut at_center);
    assert_eq!(vec![10i64, 10], at_center);
    // Deviation [4, 0] has norm 4 > 2; scale 2 / 4 truncates to 0.
    let mut outside = vec![14i64, 10];
    ball.project(&mut outside);
    assert_eq!(vec![10i64, 10], outside);
}

#[test]
fn integer_solve_is_exact() {
    let problem = Problem::new(NoConstraints::new(), PullToTen, FlatCost);
    let engine = FBSEngine::new(problem);
    let mut optimizer = FBSOptimizer::new(engine);
    let mut cache = FBSCache::new(1, 1i64, 1i64);
    let mut u = vec![0i64];
    let status = optimizer.solve(&mut cache, &mut u);
    // Step one jumps to 10 (residual norm 10); step two stands still
    // (residual norm 0 < 1) and certifies convergence.
    assert!(status.has_converged());
    assert_eq!(ExitReason::Converged, status.get_exit_reason());
    assert_eq!(2, status.get_number_iterations());
    assert_eq!(2, cache.iteration_count);
    assert_eq!(0, status.get_norm_fpr());
    assert_eq!(vec![10i64], u);
}

#[test]
fn integer_step_snapshots_previous_iterate() {
    let problem = Problem::new(NoConstraints::new(), PullToTen, FlatCost);
    let mut engine = FBSEngine::new(problem);
    let mut cache = FBSCache::new(1, 1i64, 1i64);
    let mut u = vec![4i64];
    assert!(engine.step(&mut cache, &mut u));
    assert_eq!(vec![10i64], u);
    assert_eq!(vec![4i64], cache.work_u_previous);
    assert_eq!(6, cache.norm_fpr);
}

#[test]
fn max_iterations_bound_the_run() {
    let problem = Problem::new(NoConstraints::new(), ConstantDrift, FlatCost);
    let engine = FBSEngine::new(problem);
    let mut optimizer = FBSOptimizer::new(engine).with_max_iterations(5);
    let mut cache = FBSCache::new(1, 1i64, 1i64);
    let mut u = vec![0i64];
    let status = optimizer.solve(&mut cache, &mut u);
    // Every step moves by -1 with residual norm 1, never below tolerance 1.
    assert!(!status.has_converged());
    assert_eq!(ExitReason::MaxIterationsReached, status.get_exit_reason());
    assert_eq!(5, status.get_number_iterations());
    assert_eq!(1, status.get_norm_fpr());
    assert_eq!(vec![-5i64], u);
}

#[test]
fn evaluator_fault_propagates() {
    let problem = Problem::new(NoConstraints::new(), BrokenGradient, FlatCost);
    let mut engine = FBSEngine::new(problem);
    let mut cache = FBSCache::new(1, 1i64, 1i64);
    let mut u = vec![7i64];
    // The step fails, leaves the iterate alone, and the engine stays
    // faulted for good.
    assert!(!engine.step(&mut cache, &mut u));
    assert_eq!(vec![7i64], u);
    assert!(!engine.step(&mut cache, &mut u));
}

#[test]
fn evaluator_fault_stops_solve() {
    let problem = Problem::new(NoConstraints::new(), BrokenGradient, FlatCost);
    let engine = FBSEngine::new(problem);
    let mut optimizer = FBSOptimizer::new(engine);
    let mut cache = FBSCache::new(1, 1i64, 1i64);
    let mut u = vec![7i64];
    let status = optimizer.solve(&mut cache, &mut u);
    assert!(!status.has_converged());
    assert_eq!(ExitReason::EvaluationFailed, status.get_exit_reason());
    assert_eq!(0, status.get_number_iterations());
    assert_eq!(vec![7i64], u);
}

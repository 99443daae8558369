use fbs_core::constraints;
use fbs_core::constraints::Constraint;
use fbs_core::{
    CostEvaluator, FBSCache, FBSEngine, FBSOptimizer, GradientEvaluator, Problem, Scalar,
};

const N_DIM: usize = 2;

/// The floating-point scalar the embedding code plugs into the solver; the
/// engine is verified for any algebra, the numerics of this one are the
/// embedder's own responsibility.
#[derive(Clone, Copy, Debug, PartialEq)]
struct Real(f64);

impl Scalar for Real {
    fn zero_spec() -> Real {
        unreachable!()
    }
    fn add_spec(self, _other: Real) -> Real {
        unreachable!()
    }
    fn sub_spec(self, _other: Real) -> Real {
        unreachable!()
    }
    fn mul_spec(self, _other: Real) -> Real {
        unreachable!()
    }
    fn div_spec(self, _other: Real) -> Real {
        unreachable!()
    }
    fn sqrt_spec(self) -> Real {
        unreachable!()
    }
    fn lt_spec(self, _other: Real) -> bool {
        unreachable!()
    }
    fn zero() -> Real {
        Real(0.0)
    }
    fn add(self, other: Real) -> Real {
        Real(self.0 + other.0)
    }
    fn sub(self, other: Real) -> Real {
        Real(self.0 - other.0)
    }
    fn mul(self, other: Real) -> Real {
        Real(self.0 * other.0)
    }
    fn div(self, other: Real) -> Real {
        Real(self.0 / other.0)
    }
    fn sqrt(self) -> Real {
        Real(f64::sqrt(self.0))
    }
    fn lt(self, other: Real) -> bool {
        self.0 < other.0
    }
}

fn my_cost(u: &[f64], cost: &mut f64) -> i32 {
    *cost = 0.5 * (u[0].powi(2) + 2. * u[1].powi(2) + 2.0 * u[0] * u[1]) + u[0] - u[1] + 3.0;
    0
}

fn my_gradient(u: &[f64], grad: &mut [f64]) -> i32 {
    grad[0] = u[0] + u[1] + 1.0;
    grad[1] = u[0] + 2. * u[1] - 1.0;
    0
}

struct MyGradient;

impl GradientEvaluator<Real> for MyGradient {
    fn grad_spec(&self, _u: vstd::seq::Seq<Real>) -> vstd::seq::Seq<Real> {
        unreachable!()
    }
    fn status_spec(&self, _u: vstd::seq::Seq<Real>) -> i32 {
        unreachable!()
    }
    fn evaluate(&self, u: &Vec<Real>, grad: &mut Vec<Real>) -> i32 {
        let uf = [u[0].0, u[1].0];
        let mut gf = [0.0f64; 2];
        let status = my_gradient(&uf, &mut gf);
        grad[0] = Real(gf[0]);
        grad[1] = Real(gf[1]);
        status
    }
}

struct MyCost;

impl CostEvaluator<Real> for MyCost {
    fn cost_spec(&self, _u: vstd::seq::Seq<Real>) -> Real {
        unreachable!()
    }
    fn status_spec(&self, _u: vstd::seq::Seq<Real>) -> i32 {
        unreachable!()
    }
    fn evaluate(&self, u: &Vec<Real>, cost: &mut Real) -> i32 {
        let uf = [u[0].0, u[1].0];
        let mut cf = 0.0f64;
        let status = my_cost(&uf, &mut cf);
        *cost = Real(cf);
        status
    }
}

fn rvec(xs: &[f64]) -> Vec<Real> {
    xs.iter().map(|x| Real(*x)).collect()
}

#[test]
fn fbs_step_no_constraints() {
    let no_constraints = constraints::NoConstraints::new();
    let problem = Problem::new(no_constraints, MyGradient, MyCost);
    let gamma = Real(0.1);
    let tolerance = Real(1e-6);
    let mut fbs_cache = FBSCache::new(N_DIM, gamma, tolerance);
    let mut fbs_engine = FBSEngine::new(problem);
    let mut u = rvec(&[1.0, 3.0]);
    assert_eq!(true, fbs_engine.step(&mut fbs_cache, &mut u));
    assert_eq!(rvec(&[0.5, 2.4]), u);
    assert_eq!(rvec(&[1., 3.]), fbs_cache.work_u_previous);
}

#[test]
fn fbs_step_ball_constraints() {
    let ball_constraints = constraints::Ball2::new_at_origin_with_radius(Real(0.1));
    let problem = Problem::new(ball_constraints, MyGradient, MyCost);
    let gamma = Real(0.1);
    let tolerance = Real(1e-6);
    let mut fbs_cache = FBSCache::new(N_DIM, gamma, tolerance);
    let mut fbs_engine = FBSEngine::new(problem);

    let mut u = rvec(&[1.0, 3.0]);

    assert_eq!(true, fbs_engine.step(&mut fbs_cache, &mut u));
    assert!((u[0].0 - 0.020395425411200).abs() < 1e-14);
    assert!((u[1].0 - 0.097898041973761).abs() < 1e-14);
}

#[test]
fn solve_fbs() {
    let radius = Real(0.2);
    let box_constraints = constraints::Ball2::new_at_origin_with_radius(radius);
    let problem = Problem::new(box_constraints, MyGradient, MyCost);
    let gamma = Real(0.1);
    let tolerance = Real(1e-6);
    let mut fbs_cache = FBSCache::new(N_DIM, gamma, tolerance);
    let fbs_engine = FBSEngine::new(problem);
    let mut u = rvec(&[0.0; N_DIM]);
    let mut optimizer = FBSOptimizer::new(fbs_engine);
    let status = optimizer.solve(&mut fbs_cache, &mut u);
    assert!(status.has_converged());
    assert!(status.get_norm_fpr().0 < tolerance.0);
    assert!((-0.14896 - u[0].0).abs() < 1e-4);
    assert!((0.13346 - u[1].0).abs() < 1e-4);
}

#[test]
fn solve_fbs_many_times() {
    // Algorithm configuration
    let gamma = Real(0.1);
    let tolerance = Real(1e-6);

    // The cache is constructed ONCE. This step allocates memory.
    let mut fbs_cache = FBSCache::new(N_DIM, gamma, tolerance);

    let mut u = rvec(&[0.0, 0.0]);

    for i in 1..10 {
        // Every control cycle the constraints may change
        let box_constraints = constraints::Ball2::new_at_origin_with_radius(Real(0.2));
        // The problem is rebuilt at every cycle
        let problem = Problem::new(box_constraints, MyGradient, MyCost);
        // A new engine is constructed; this does not allocate any memory
        let fbs_engine = FBSEngine::new(problem);
        // Here comes the new initial condition
        u[0] = Real(2.0 * i as f64);
        u[1] = Real(-(i as f64));
        // A new optimizer over the fresh engine
        let mut optimizer = FBSOptimizer::new(fbs_engine);
        let status = optimizer.solve(&mut fbs_cache, &mut u);
        assert!(status.get_norm_fpr().0 < tolerance.0);
    }
}

#[test]
fn evaluate_cost_through_problem() {
    let no_constraints = constraints::NoConstraints::new();
    let problem = Problem::new(no_constraints, MyGradient, MyCost);
    let u = rvec(&[1.0, 3.0]);
    let mut cost = Real(0.0);
    let status = problem.evaluate_cost(&u, &mut cost);
    assert_eq!(0, status);
    assert_eq!(Real(13.5), cost);
}

#[test]
fn ball_projection_lands_on_boundary() {
    let ball = constraints::Ball2::new_at_origin_with_radius(Real(0.1));
    let mut u = rvec(&[1.0, 3.0]);
    ball.project(&mut u);
    let norm = (u[0].0 * u[0].0 + u[1].0 * u[1].0).sqrt();
    assert!((norm - 0.1).abs() < 1e-15);
}

#[test]
fn ball_projection_idempotent() {
    let ball = constraints::Ball2::new_at_origin_with_radius(Real(0.1));
    let mut once = rvec(&[1.0, 3.0]);
    ball.project(&mut once);
    let mut twice = once.clone();
    ball.project(&mut twice);
    assert!((once[0].0 - twice[0].0).abs() < 1e-15);
    assert!((once[1].0 - twice[1].0).abs() < 1e-15);
}

#[test]
fn ball_projection_with_center_keeps_inside_point() {
    let ball = constraints::Ball2::new_with_center(rvec(&[1.0, 1.0]), Real(0.5));
    let mut u = rvec(&[1.2, 1.0]);
    ball.project(&mut u);
    assert_eq!(rvec(&[1.2, 1.0]), u);
    let mut far = rvec(&[3.0, 1.0]);
    ball.project(&mut far);
    assert!((far[0].0 - 1.5).abs() < 1e-15);
    assert!((far[1].0 - 1.0).abs() < 1e-15);
}

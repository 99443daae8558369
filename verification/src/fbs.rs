//! The forward-backward splitting core: the problem definition, the
//! reusable workspace, and the engine that performs one exact
//! forward-backward step.

use vstd::prelude::*;

verus! {

use crate::constraints::Constraint;
use crate::matrix_operations::{
    lemma_sum_of_squares_all_zero, lemma_sum_of_squares_take_step, norm2_spec, sum_of_squares,
};
use crate::scalar::Scalar;

/// A user-supplied gradient evaluator. The evaluator must be a pure
/// function of the iterate: what it writes and the status it returns are
/// pinned by its own two spec functions, and a nonzero status means it
/// could not evaluate at that point.
pub trait GradientEvaluator<T: Scalar> {
    /// The gradient the evaluator computes at `u`.
    spec fn grad_spec(&self, u: Seq<T>) -> Seq<T>;

    /// The status the evaluator reports at `u`; 0 means success.
    spec fn status_spec(&self, u: Seq<T>) -> i32;

    /// Writes the gradient at `u` into `grad` and reports the status.
    /// On failure the contents of `grad` are unspecified (only the length
    /// is kept), and callers must not use them.
    fn evaluate(&self, u: &Vec<T>, grad: &mut Vec<T>) -> (status: i32)
        requires
            old(grad)@.len() == u@.len(),
        ensures
            final(grad)@.len() == u@.len(),
            status == self.status_spec(u@),
            status == 0 ==> final(grad)@ == self.grad_spec(u@),
    ;
}

/// A user-supplied cost evaluator, a pure function of the iterate. The
/// basic forward-backward step never calls it; it is carried for
/// diagnostics and for algorithm variants that need cost values.
pub trait CostEvaluator<T: Scalar> {
    /// The cost the evaluator computes at `u`.
    spec fn cost_spec(&self, u: Seq<T>) -> T;

    /// The status the evaluator reports at `u`; 0 means success.
    spec fn status_spec(&self, u: Seq<T>) -> i32;

    /// Writes the cost at `u` into `cost` and reports the status. On
    /// failure the value left in `cost` is unspecified and must not be
    /// used.
    fn evaluate(&self, u: &Vec<T>, cost: &mut T) -> (status: i32)
        ensures
            status == self.status_spec(u@),
            status == 0 ==> *final(cost) == self.cost_spec(u@),
    ;
}

/// A problem definition: a constraint set coupled with the two
/// user-supplied evaluators. A cheap value, rebuilt every control cycle
/// without touching the heap, and consumed by one engine.
pub struct Problem<C, G, K> {
    pub constraint: C,
    pub gradient: G,
    pub cost: K,
}

impl<C, G, K> Problem<C, G, K> {
    pub fn new(constraint: C, gradient: G, cost: K) -> (p: Problem<C, G, K>)
        ensures
            p.constraint == constraint,
            p.gradient == gradient,
            p.cost == cost,
    {
        Problem { constraint, gradient, cost }
    }

    /// Evaluates the gradient at `u` into the caller's buffer.
    pub fn evaluate_gradient<T: Scalar>(&self, u: &Vec<T>, grad: &mut Vec<T>) -> (status: i32) where
        G: GradientEvaluator<T>,

        requires
            old(grad)@.len() == u@.len(),
        ensures
            final(grad)@.len() == u@.len(),
            status == self.gradient.status_spec(u@),
            status == 0 ==> final(grad)@ == self.gradient.grad_spec(u@),
    {
        self.gradient.evaluate(u, grad)
    }

    /// Evaluates the cost at `u`.
    pub fn evaluate_cost<T: Scalar>(&self, u: &Vec<T>, cost: &mut T) -> (status: i32) where
        K: CostEvaluator<T>,

        ensures
            status == self.cost.status_spec(u@),
            status == 0 ==> *final(cost) == self.cost.cost_spec(u@),
    {
        self.cost.evaluate(u, cost)
    }
}

/// The reusable workspace: every scratch buffer the engine needs, sized to
/// the problem dimension, plus the fixed step size and the convergence
/// tolerance. Allocated exactly once and reused across arbitrarily many
/// solves.
pub struct FBSCache<T> {
    pub work_gradient_u: Vec<T>,
    pub work_u_previous: Vec<T>,
    pub gamma: T,
    pub tolerance: T,
    pub norm_fpr: T,
    pub iteration_count: usize,
    pub n_dim: usize,
}

impl<T: Scalar> FBSCache<T> {
    /// Both scratch buffers keep length `n_dim` for the cache's whole life.
    pub open spec fn wf(&self) -> bool {
        &&& self.work_gradient_u@.len() == self.n_dim
        &&& self.work_u_previous@.len() == self.n_dim
    }

    /// Allocates the workspace. This is the one allocating call of the
    /// whole solver; step size and tolerance must be positive in the
    /// algebra of `T`.
    #[verifier::loop_isolation(false)]
    pub fn new(n_dim: usize, gamma: T, tolerance: T) -> (cache: FBSCache<T>)
        requires
            T::zero_spec().lt_spec(gamma),
            T::zero_spec().lt_spec(tolerance),
        ensures
            cache.wf(),
            cache.n_dim == n_dim,
            cache.gamma == gamma,
            cache.tolerance == tolerance,
            cache.norm_fpr == T::zero_spec(),
            cache.iteration_count == 0,
    {
        let mut grad_buffer: Vec<T> = Vec::new();
        let mut previous_buffer: Vec<T> = Vec::new();
        let mut i: usize = 0;
        while i < n_dim
            invariant
                i <= n_dim,
                grad_buffer@.len() == i,
                previous_buffer@.len() == i,
            decreases n_dim - i,
        {
            grad_buffer.push(T::zero());
            previous_buffer.push(T::zero());
            i = i + 1;
        }
        FBSCache {
            work_gradient_u: grad_buffer,
            work_u_previous: previous_buffer,
            gamma,
            tolerance,
            norm_fpr: T::zero(),
            iteration_count: 0,
            n_dim,
        }
    }
}

/// The forward point `u - gamma * g`, coordinate by coordinate in the
/// algebra of `T`.
pub open spec fn forward_step_spec<T: Scalar>(u: Seq<T>, gamma: T, g: Seq<T>) -> Seq<T> {
    Seq::new(u.len(), |i: int| u[i].sub_spec(gamma.mul_spec(g[i])))
}

/// The fixed-point residual vector `(a - b) / gamma`, coordinate by
/// coordinate in the algebra of `T`.
pub open spec fn scaled_diff_spec<T: Scalar>(a: Seq<T>, b: Seq<T>, gamma: T) -> Seq<T> {
    Seq::new(a.len(), |i: int| a[i].sub_spec(b[i]).div_spec(gamma))
}

/// One exact forward-backward update of an iterate: project the forward
/// point onto the constraint set.
pub open spec fn fbs_step_spec<T: Scalar, C: Constraint<T>, G: GradientEvaluator<T>>(
    constraint: C,
    gradient: G,
    gamma: T,
    u: Seq<T>,
) -> Seq<T> {
    constraint.project_spec(forward_step_spec(u, gamma, gradient.grad_spec(u)))
}

/// The `k`-th iterate of the forward-backward map started at `u0`.
pub open spec fn fbs_iterate_spec<T: Scalar, C: Constraint<T>, G: GradientEvaluator<T>>(
    constraint: C,
    gradient: G,
    gamma: T,
    u0: Seq<T>,
    k: nat,
) -> Seq<T>
    decreases k,
{
    if k == 0 {
        u0
    } else {
        fbs_step_spec(
            constraint,
            gradient,
            gamma,
            fbs_iterate_spec(constraint, gradient, gamma, u0, (k - 1) as nat),
        )
    }
}

/// The fixed-point residual norm recorded by the `k`-th step (`k >= 1`):
/// the norm of the scaled difference between iterates `k - 1` and `k`.
pub open spec fn fbs_residual_spec<T: Scalar, C: Constraint<T>, G: GradientEvaluator<T>>(
    constraint: C,
    gradient: G,
    gamma: T,
    u0: Seq<T>,
    k: nat,
) -> T {
    norm2_spec(
        scaled_diff_spec(
            fbs_iterate_spec(constraint, gradient, gamma, u0, (k - 1) as nat),
            fbs_iterate_spec(constraint, gradient, gamma, u0, k),
            gamma,
        ),
    )
}

/// Over the crate's `i64` algebra, the fixed-point residual vanishes at a
/// fixed point of the forward-backward map: whenever a step leaves the
/// iterate in place, the stopping certificate it records is zero. (The
/// converse depends on the step size, since the truncated quotient
/// `(a - b) / gamma` can vanish on a small move.)
pub proof fn lemma_i64_fixed_point_has_zero_residual<
    C: Constraint<i64>,
    G: GradientEvaluator<i64>,
>(constraint: C, gradient: G, gamma: i64, u0: Seq<i64>, k: nat)
    requires
        k >= 1,
        fbs_iterate_spec(constraint, gradient, gamma, u0, (k - 1) as nat) == fbs_iterate_spec(
            constraint,
            gradient,
            gamma,
            u0,
            k,
        ),
    ensures
        fbs_residual_spec(constraint, gradient, gamma, u0, k) == 0i64,
{
    let u = fbs_iterate_spec(constraint, gradient, gamma, u0, (k - 1) as nat);
    let sd = scaled_diff_spec(u, u, gamma);
    assert forall|i: int| 0 <= i < sd.len() implies sd[i] == 0i64 by {
        assert(u[i].sub_spec(u[i]) == 0i64);
        if gamma != 0 {
            vstd::arithmetic::div_mod::lemma_basic_div(0, vstd::math::abs(gamma as int) as int);
        }
        assert((0i64).div_spec(gamma) == 0i64);
    }
    lemma_sum_of_squares_all_zero(sd);
    assert(norm2_spec(sd) == 0i64);
}

/// The step engine: binds one problem definition to a workspace handed in
/// at each step, and performs one exact forward-backward iteration. Ready
/// until an evaluator fails; faulted, and inert, from then on.
pub struct FBSEngine<C, G, K> {
    pub problem: Problem<C, G, K>,
    pub faulted: bool,
}

impl<C, G, K> FBSEngine<C, G, K> {
    pub fn new(problem: Problem<C, G, K>) -> (engine: FBSEngine<C, G, K>)
        ensures
            engine.problem == problem,
            !engine.faulted,
    {
        FBSEngine { problem, faulted: false }
    }

    /// One forward-backward step on the iterate `u`, in place:
    /// snapshot `u`, evaluate the gradient, move along `-gamma * grad`,
    /// project onto the constraint set, and record the fixed-point
    /// residual norm. On an evaluator failure the engine faults, `u` is
    /// left unchanged and the residual norm keeps its previous value.
    #[verifier::loop_isolation(false)]
    pub fn step<T: Scalar>(&mut self, cache: &mut FBSCache<T>, u: &mut Vec<T>) -> (success: bool) where
        C: Constraint<T>,
        G: GradientEvaluator<T>,

        requires
            old(cache).wf(),
            old(u)@.len() == old(cache).n_dim,
            old(self).problem.constraint.dim_ok(old(u)@.len()),
        ensures
            final(cache).wf(),
            final(cache).n_dim == old(cache).n_dim,
            final(cache).gamma == old(cache).gamma,
            final(cache).tolerance == old(cache).tolerance,
            final(cache).iteration_count == old(cache).iteration_count,
            final(u)@.len() == old(u)@.len(),
            final(self).problem == old(self).problem,
            old(self).faulted ==> {
                &&& !success
                &&& *final(self) == *old(self)
                &&& *final(cache) == *old(cache)
                &&& final(u)@ == old(u)@
            },
            !old(self).faulted ==> {
                let g_status = old(self).problem.gradient.status_spec(old(u)@);
                &&& final(cache).work_u_previous@ == old(u)@
                &&& g_status == 0 ==> {
                    &&& success
                    &&& !final(self).faulted
                    &&& final(cache).work_gradient_u@ == old(self).problem.gradient.grad_spec(
                        old(u)@,
                    )
                    &&& final(u)@ == fbs_step_spec(
                        old(self).problem.constraint,
                        old(self).problem.gradient,
                        old(cache).gamma,
                        old(u)@,
                    )
                    &&& final(cache).norm_fpr == norm2_spec(
                        scaled_diff_spec(old(u)@, final(u)@, old(cache).gamma),
                    )
                }
                &&& g_status != 0 ==> {
                    &&& !success
                    &&& final(self).faulted
                    &&& final(u)@ == old(u)@
                    &&& final(cache).norm_fpr == old(cache).norm_fpr
                }
            },
    {
        if self.faulted {
            return false;
        }
        let n: usize = u.len();

        // Snapshot the iterate before any mutation.
        let mut i: usize = 0;
        while i < n
            invariant
                i <= n,
                u@ == old(u)@,
                cache.work_u_previous@.len() == n,
                cache.work_gradient_u@ == old(cache).work_gradient_u@,
                cache.gamma == old(cache).gamma,
                cache.tolerance == old(cache).tolerance,
                cache.norm_fpr == old(cache).norm_fpr,
                cache.iteration_count == old(cache).iteration_count,
                cache.n_dim == old(cache).n_dim,
                forall|j: int| 0 <= j < i ==> cache.work_u_previous@[j] == u@[j],
            decreases n - i,
        {
            cache.work_u_previous[i] = u[i];
            i = i + 1;
        }
        proof {
            assert(cache.work_u_previous@ =~= u@);
        }

        // Forward step needs the gradient at the current iterate.
        let status: i32 = self.problem.evaluate_gradient(u, &mut cache.work_gradient_u);
        if status != 0 {
            self.faulted = true;
            return false;
        }

        // Forward step: move along the negative gradient.
        let mut i: usize = 0;
        while i < n
            invariant
                i <= n,
                u@.len() == n,
                cache.work_u_previous@ == old(u)@,
                cache.work_gradient_u@ == old(self).problem.gradient.grad_spec(old(u)@),
                cache.gamma == old(cache).gamma,
                cache.tolerance == old(cache).tolerance,
                cache.norm_fpr == old(cache).norm_fpr,
                cache.iteration_count == old(cache).iteration_count,
                cache.n_dim == old(cache).n_dim,
                forall|j: int| i <= j < n ==> u@[j] == old(u)@[j],
                forall|j: int|
                    0 <= j < i ==> u@[j] == old(u)@[j].sub_spec(
                        cache.gamma.mul_spec(cache.work_gradient_u@[j]),
                    ),
            decreases n - i,
        {
            let g: T = cache.work_gradient_u[i];
            u[i] = u[i].sub(cache.gamma.mul(g));
            i = i + 1;
        }
        proof {
            assert(u@ =~= forward_step_spec(
                old(u)@,
                cache.gamma,
                old(self).problem.gradient.grad_spec(old(u)@),
            ));
        }

        // Backward step: project onto the constraint set.
        self.problem.constraint.project(u);

        // Record the fixed-point residual norm.
        let ghost residual = scaled_diff_spec(old(u)@, u@, old(cache).gamma);
        let mut acc: T = T::zero();
        let mut i: usize = 0;
        while i < n
            invariant
                i <= n,
                u@.len() == n,
                cache.work_u_previous@ == old(u)@,
                cache.gamma == old(cache).gamma,
                cache.iteration_count == old(cache).iteration_count,
                acc == sum_of_squares(residual.take(i as int)),
                residual == scaled_diff_spec(old(u)@, u@, old(cache).gamma),
            decreases n - i,
        {
            proof {
                lemma_sum_of_squares_take_step(residual, i as int);
            }
            let d: T = cache.work_u_previous[i].sub(u[i]).div(cache.gamma);
            acc = acc.add(d.mul(d));
            i = i + 1;
        }
        proof {
            assert(residual.take(n as int) =~= residual);
        }
        cache.norm_fpr = acc.sqrt();
        true
    }
}

} // verus!

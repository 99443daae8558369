//! The driver: repeats forward-backward steps until the fixed-point
//! residual norm drops below the workspace tolerance, an evaluator fails,
//! or the iteration cap is reached, and reports how it stopped.

use vstd::prelude::*;

verus! {

use crate::constraints::Constraint;
use crate::fbs::{
    fbs_iterate_spec, fbs_residual_spec, fbs_step_spec, FBSCache, FBSEngine, GradientEvaluator,
};
use crate::scalar::Scalar;

/// Why a solve run stopped.
#[derive(Clone, Copy, Debug, PartialEq, Eq)]
pub enum ExitReason {
    Converged,
    MaxIterationsReached,
    EvaluationFailed,
}

/// The record a solve run returns: whether it converged, the last
/// fixed-point residual norm, how many steps completed, and why it
/// stopped. Callers can act on the best available iterate even on
/// non-convergence.
pub struct SolverStatus<T> {
    pub converged: bool,
    pub norm_fpr: T,
    pub iterations: usize,
    pub exit_reason: ExitReason,
}

impl<T: Copy> SolverStatus<T> {
    pub fn has_converged(&self) -> (r: bool)
        ensures
            r == self.converged,
    {
        self.converged
    }

    pub fn get_norm_fpr(&self) -> (r: T)
        ensures
            r == self.norm_fpr,
    {
        self.norm_fpr
    }

    pub fn get_number_iterations(&self) -> (r: usize)
        ensures
            r == self.iterations,
    {
        self.iterations
    }

    pub fn get_exit_reason(&self) -> (r: ExitReason)
        ensures
            r == self.exit_reason,
    {
        self.exit_reason
    }
}

/// The iteration cap a freshly built optimizer starts with; callers tune
/// it with [`FBSOptimizer::with_max_iterations`].
pub const DEFAULT_MAX_ITERATIONS: usize = 10000;

/// The solve driver over one step engine.
pub struct FBSOptimizer<C, G, K> {
    pub engine: FBSEngine<C, G, K>,
    pub max_iterations: usize,
}

impl<C, G, K> FBSOptimizer<C, G, K> {
    pub fn new(engine: FBSEngine<C, G, K>) -> (opt: FBSOptimizer<C, G, K>)
        ensures
            opt.engine == engine,
            opt.max_iterations == DEFAULT_MAX_ITERATIONS,
    {
        FBSOptimizer { engine, max_iterations: DEFAULT_MAX_ITERATIONS }
    }

    /// Replaces the iteration cap, which bounds the time a solve may take
    /// even when the tolerance is unreachable.
    pub fn with_max_iterations(self, max_iterations: usize) -> (opt: FBSOptimizer<C, G, K>)
        requires
            max_iterations >= 1,
        ensures
            opt.engine == self.engine,
            opt.max_iterations == max_iterations,
    {
        FBSOptimizer { engine: self.engine, max_iterations }
    }

    /// Runs forward-backward steps on `u` in place until the fixed-point
    /// residual norm falls below the workspace tolerance (`Converged`), an
    /// evaluator reports a nonzero status (`EvaluationFailed`, never
    /// reported as convergence), or `max_iterations` steps have run
    /// (`MaxIterationsReached`). The returned record counts the completed
    /// steps and carries the workspace's final residual norm whatever the
    /// outcome; the iterate is left at the last completed step's value.
    #[verifier::loop_isolation(false)]
    pub fn solve<T: Scalar>(&mut self, cache: &mut FBSCache<T>, u: &mut Vec<T>) -> (status:
        SolverStatus<T>) where C: Constraint<T>, G: GradientEvaluator<T>,
        requires
            old(cache).wf(),
            old(u)@.len() == old(cache).n_dim,
            old(self).engine.problem.constraint.dim_ok(old(u)@.len()),
            !old(self).engine.faulted,
            old(self).max_iterations >= 1,
        ensures
            final(cache).wf(),
            final(cache).n_dim == old(cache).n_dim,
            final(cache).gamma == old(cache).gamma,
            final(cache).tolerance == old(cache).tolerance,
            final(u)@.len() == old(u)@.len(),
            final(self).engine.problem == old(self).engine.problem,
            final(self).max_iterations == old(self).max_iterations,
            status.norm_fpr == final(cache).norm_fpr,
            final(cache).iteration_count == status.iterations,
            status.iterations <= old(self).max_iterations,
            (status.converged <==> status.exit_reason is Converged),
            ({
                let con = old(self).engine.problem.constraint;
                let grd = old(self).engine.problem.gradient;
                let gam = old(cache).gamma;
                let u0 = old(u)@;
                let k = status.iterations as nat;
                &&& final(u)@ == fbs_iterate_spec(con, grd, gam, u0, k)
                &&& forall|j: nat|
                    0 < j < k ==> !(#[trigger] fbs_residual_spec(con, grd, gam, u0, j)).lt_spec(
                        old(cache).tolerance,
                    )
                &&& forall|j: nat|
                    j < k ==> #[trigger] grd.status_spec(
                        fbs_iterate_spec(con, grd, gam, u0, j),
                    ) == 0
                &&& k >= 1 ==> final(cache).norm_fpr == fbs_residual_spec(con, grd, gam, u0, k)
                &&& k == 0 ==> final(cache).norm_fpr == old(cache).norm_fpr
                &&& status.exit_reason is Converged ==> {
                    &&& k >= 1
                    &&& final(cache).norm_fpr.lt_spec(old(cache).tolerance)
                    &&& !final(self).engine.faulted
                }
                &&& status.exit_reason is MaxIterationsReached ==> {
                    &&& k == old(self).max_iterations
                    &&& !final(cache).norm_fpr.lt_spec(old(cache).tolerance)
                    &&& !final(self).engine.faulted
                }
                &&& status.exit_reason is EvaluationFailed ==> {
                    &&& grd.status_spec(fbs_iterate_spec(con, grd, gam, u0, k)) != 0
                    &&& final(self).engine.faulted
                    &&& !status.converged
                    &&& k < old(self).max_iterations
                }
            }),
    {
        let ghost con = old(self).engine.problem.constraint;
        let ghost grd = old(self).engine.problem.gradient;
        let ghost gam = old(cache).gamma;
        let ghost u0 = old(u)@;
        let mut iterations: usize = 0;
        loop
            invariant
                iterations < self.max_iterations,
                cache.wf(),
                cache.n_dim == old(cache).n_dim,
                cache.gamma == gam,
                cache.tolerance == old(cache).tolerance,
                u@.len() == old(u)@.len(),
                self.engine.problem == old(self).engine.problem,
                self.max_iterations == old(self).max_iterations,
                !self.engine.faulted,
                u@ == fbs_iterate_spec(con, grd, gam, u0, iterations as nat),
                forall|j: nat|
                    0 < j <= iterations ==> !(#[trigger] fbs_residual_spec(
                        con,
                        grd,
                        gam,
                        u0,
                        j,
                    )).lt_spec(old(cache).tolerance),
                forall|j: nat|
                    j < iterations ==> #[trigger] grd.status_spec(
                        fbs_iterate_spec(con, grd, gam, u0, j),
                    ) == 0,
                iterations >= 1 ==> cache.norm_fpr == fbs_residual_spec(
                    con,
                    grd,
                    gam,
                    u0,
                    iterations as nat,
                ),
                iterations == 0 ==> cache.norm_fpr == old(cache).norm_fpr,
            decreases self.max_iterations - iterations,
        {
            let ghost u_before = u@;
            let success: bool = self.engine.step(cache, u);
            if !success {
                cache.iteration_count = iterations;
                return SolverStatus {
                    converged: false,
                    norm_fpr: cache.norm_fpr,
                    iterations,
                    exit_reason: ExitReason::EvaluationFailed,
                };
            }
            proof {
                assert(fbs_iterate_spec(con, grd, gam, u0, (iterations + 1) as nat)
                    == fbs_step_spec(con, grd, gam, u_before));
            }
            iterations = iterations + 1;
            let norm: T = cache.norm_fpr;
            if norm.lt(cache.tolerance) {
                cache.iteration_count = iterations;
                return SolverStatus {
                    converged: true,
                    norm_fpr: norm,
                    iterations,
                    exit_reason: ExitReason::Converged,
                };
            }
            if iterations == self.max_iterations {
                cache.iteration_count = iterations;
                return SolverStatus {
                    converged: false,
                    norm_fpr: norm,
                    iterations,
                    exit_reason: ExitReason::MaxIterationsReached,
                };
            }
        }
    }
}

} // verus!

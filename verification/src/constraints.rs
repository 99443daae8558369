//! Constraint sets and their Euclidean projections.
//!
//! A constraint set exposes one operation, `project`, which maps a point to
//! the nearest member of a convex set and is pinned, coordinate by
//! coordinate, to a spec-level formula. Two variants are provided: the
//! unconstrained set (identity projection) and the Euclidean ball.

use vstd::prelude::*;

verus! {

use crate::matrix_operations::{diff_spec, lemma_sum_of_squares_all_zero, norm2_spec};
use crate::scalar::Scalar;

/// A convex set that points can be projected onto.
pub trait Constraint<T: Scalar> {
    /// Whether the set is compatible with points of dimension `n`.
    spec fn dim_ok(&self, n: nat) -> bool;

    /// The projection of `p` onto the set.
    spec fn project_spec(&self, p: Seq<T>) -> Seq<T>;

    /// Projection never changes the dimension of a point.
    proof fn lemma_project_len(&self, p: Seq<T>)
        ensures
            self.project_spec(p).len() == p.len(),
    ;

    /// Replaces `u` with its projection onto the set, in place.
    fn project(&self, u: &mut Vec<T>)
        requires
            self.dim_ok(old(u)@.len()),
        ensures
            final(u)@ == self.project_spec(old(u)@),
            final(u)@.len() == old(u)@.len(),
    ;
}

/// The unconstrained set: the whole space, whose projection is the
/// identity.
pub struct NoConstraints {}

impl NoConstraints {
    pub fn new() -> NoConstraints {
        NoConstraints {  }
    }
}

impl<T: Scalar> Constraint<T> for NoConstraints {
    open spec fn dim_ok(&self, n: nat) -> bool {
        true
    }

    open spec fn project_spec(&self, p: Seq<T>) -> Seq<T> {
        p
    }

    proof fn lemma_project_len(&self, p: Seq<T>) {
    }

    fn project(&self, u: &mut Vec<T>) {
    }
}

/// A Euclidean ball of a given radius, around an explicit center or around
/// the origin (no center vector is stored, and none is allocated, for the
/// origin).
pub struct Ball2<T> {
    pub center: Option<Vec<T>>,
    pub radius: T,
}

impl<T: Scalar> Ball2<T> {
    /// A ball of radius `radius` around the origin.
    pub fn new_at_origin_with_radius(radius: T) -> (b: Ball2<T>)
        ensures
            b.center is None,
            b.radius == radius,
    {
        Ball2 { center: None, radius }
    }

    /// A ball of radius `radius` around `center`.
    pub fn new_with_center(center: Vec<T>, radius: T) -> (b: Ball2<T>)
        ensures
            b.center == Some(center),
            b.radius == radius,
    {
        Ball2 { center: Some(center), radius }
    }

    /// The deviation of `p` from the ball's center.
    pub open spec fn deviation(&self, p: Seq<T>) -> Seq<T> {
        match self.center {
            Option::None => p,
            Option::Some(c) => diff_spec(p, c@),
        }
    }
}

impl<T: Scalar> Constraint<T> for Ball2<T> {
    open spec fn dim_ok(&self, n: nat) -> bool {
        match self.center {
            Option::None => true,
            Option::Some(c) => c@.len() == n,
        }
    }

    /// A point whose deviation `d` from the center has norm at most the
    /// radius is left unchanged; any other point moves to the boundary
    /// member `center + radius * d / norm(d)`.
    open spec fn project_spec(&self, p: Seq<T>) -> Seq<T> {
        let norm = norm2_spec(self.deviation(p));
        if self.radius.lt_spec(norm) {
            let scale = self.radius.div_spec(norm);
            match self.center {
                Option::None => Seq::new(p.len(), |i: int| p[i].mul_spec(scale)),
                Option::Some(c) => Seq::new(
                    p.len(),
                    |i: int| c@[i].add_spec(p[i].sub_spec(c@[i]).mul_spec(scale)),
                ),
            }
        } else {
            p
        }
    }

    proof fn lemma_project_len(&self, p: Seq<T>) {
    }

    #[verifier::loop_isolation(false)]
    fn project(&self, u: &mut Vec<T>) {
        match &self.center {
            Option::None => {
                let norm: T = crate::matrix_operations::norm2(u);
                if self.radius.lt(norm) {
                    let scale: T = self.radius.div(norm);
                    let mut i: usize = 0;
                    while i < u.len()
                        invariant
                            i <= u@.len(),
                            u@.len() == old(u)@.len(),
                            forall|j: int| i <= j < u@.len() ==> u@[j] == old(u)@[j],
                            forall|j: int|
                                0 <= j < i ==> u@[j] == old(u)@[j].mul_spec(scale),
                        decreases u@.len() - i,
                    {
                        u[i] = u[i].mul(scale);
                        i = i + 1;
                    }
                    proof {
                        assert(u@ =~= self.project_spec(old(u)@));
                    }
                }
            },
            Option::Some(c) => {
                let norm: T = crate::matrix_operations::norm2_of_diff(u, c);
                if self.radius.lt(norm) {
                    let scale: T = self.radius.div(norm);
                    let mut i: usize = 0;
                    while i < u.len()
                        invariant
                            i <= u@.len(),
                            u@.len() == old(u)@.len(),
                            forall|j: int| i <= j < u@.len() ==> u@[j] == old(u)@[j],
                            forall|j: int|
                                0 <= j < i ==> u@[j] == c@[j].add_spec(
                                    old(u)@[j].sub_spec(c@[j]).mul_spec(scale),
                                ),
                        decreases u@.len() - i,
                    {
                        u[i] = c[i].add(u[i].sub(c[i]).mul(scale));
                        i = i + 1;
                    }
                    proof {
                        assert(u@ =~= self.project_spec(old(u)@));
                    }
                }
            },
        }
    }
}

/// Projection through the unconstrained set is idempotent: projecting a
/// point twice gives the same member as projecting it once.
pub proof fn lemma_no_constraints_projection_idempotent<T: Scalar>(
    set: NoConstraints,
    p: Seq<T>,
)
    ensures
        Constraint::<T>::project_spec(
            &set,
            Constraint::<T>::project_spec(&set, p),
        ) == Constraint::<T>::project_spec(&set, p),
{
}

/// A point already inside the ball (its deviation's norm not above the
/// radius) is its own projection.
pub proof fn lemma_ball2_projection_inside<T: Scalar>(ball: Ball2<T>, p: Seq<T>)
    requires
        !ball.radius.lt_spec(norm2_spec(ball.deviation(p))),
    ensures
        ball.project_spec(p) == p,
{
}

/// A point strictly outside the ball (its deviation `d` from the center
/// has norm above the radius) projects to the boundary member
/// `center + d * (radius / norm(d))`, coordinate by coordinate in the
/// algebra of `T`.
pub proof fn lemma_ball2_projection_outside<T: Scalar>(ball: Ball2<T>, p: Seq<T>)
    requires
        ball.radius.lt_spec(norm2_spec(ball.deviation(p))),
    ensures
        ball.project_spec(p) == ({
            let scale = ball.radius.div_spec(norm2_spec(ball.deviation(p)));
            match ball.center {
                Option::None => Seq::new(p.len(), |i: int| p[i].mul_spec(scale)),
                Option::Some(c) => Seq::new(
                    p.len(),
                    |i: int| c@[i].add_spec(p[i].sub_spec(c@[i]).mul_spec(scale)),
                ),
            }
        }),
{
}

/// Projecting onto a ball is idempotent on every point that lands inside
/// it again: re-projecting such a projection changes nothing. (Whether the
/// boundary member an outside point maps to lands inside again depends on
/// how the algebra of `T` rounds its square root and quotient, so the
/// general claim is left to the algebra.)
pub proof fn lemma_ball2_projection_idempotent_inside<T: Scalar>(
    ball: Ball2<T>,
    p: Seq<T>,
)
    requires
        !ball.radius.lt_spec(norm2_spec(ball.deviation(ball.project_spec(p)))),
    ensures
        ball.project_spec(ball.project_spec(p)) == ball.project_spec(p),
{
    lemma_ball2_projection_inside(ball, ball.project_spec(p));
}

/// Over the crate's `i64` algebra, projection onto a ball of nonnegative
/// radius is idempotent on every point: a point outside the ball projects
/// to the center (the truncated scale `radius / norm` vanishes there),
/// which lies inside and so stays put.
pub proof fn lemma_ball2_i64_projection_idempotent(ball: Ball2<i64>, p: Seq<i64>)
    requires
        0 <= ball.radius,
        ball.dim_ok(p.len()),
    ensures
        ball.project_spec(ball.project_spec(p)) == ball.project_spec(p),
{
    let d = ball.deviation(p);
    let norm = norm2_spec(d);
    if !ball.radius.lt_spec(norm) {
        lemma_ball2_projection_inside(ball, p);
    } else {
        let q = ball.project_spec(p);
        let scale = ball.radius.div_spec(norm);
        vstd::arithmetic::div_mod::lemma_basic_div(ball.radius as int, norm as int);
        assert(scale == 0i64);
        match ball.center {
            Option::None => {
                assert forall|i: int| 0 <= i < q.len() implies q[i] == 0i64 by {
                    assert((p[i] as int) * (scale as int) == 0) by (nonlinear_arith)
                        requires
                            scale == 0i64,
                    ;
                }
            },
            Option::Some(c) => {
                assert forall|i: int| 0 <= i < q.len() implies q[i] == c@[i] by {
                    assert(((p[i].sub_spec(c@[i])) as int) * (scale as int) == 0)
                        by (nonlinear_arith)
                        requires
                            scale == 0i64,
                    ;
                }
            },
        }
        let d2 = ball.deviation(q);
        assert(forall|i: int| 0 <= i < d2.len() ==> d2[i] == 0i64);
        lemma_sum_of_squares_all_zero(d2);
        assert(norm2_spec(d2) == 0i64);
        assert(!ball.radius.lt_spec(norm2_spec(d2)));
        lemma_ball2_projection_inside(ball, q);
    }
}

} // verus!

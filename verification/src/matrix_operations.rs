//! Euclidean norms over scalar vectors, as the engine and the constraint
//! sets use them: a spec-level fold describing the sum of squares, and
//! verified executable loops that compute it without allocating.

use vstd::prelude::*;

verus! {

use crate::scalar::Scalar;

/// The left-to-right fold `0 + s[0]*s[0] + ... + s[n-1]*s[n-1]` in the
/// algebra of `T`.
pub open spec fn sum_of_squares<T: Scalar>(s: Seq<T>) -> T
    decreases s.len(),
{
    if s.len() == 0 {
        T::zero_spec()
    } else {
        sum_of_squares(s.drop_last()).add_spec(s.last().mul_spec(s.last()))
    }
}

/// The Euclidean norm of `s`: the square root of its sum of squares.
pub open spec fn norm2_spec<T: Scalar>(s: Seq<T>) -> T {
    sum_of_squares(s).sqrt_spec()
}

/// The pointwise difference `a - b` in the algebra of `T`.
pub open spec fn diff_spec<T: Scalar>(a: Seq<T>, b: Seq<T>) -> Seq<T> {
    Seq::new(a.len(), |i: int| a[i].sub_spec(b[i]))
}

/// Extending a prefix by one element grows the fold by one square.
pub proof fn lemma_sum_of_squares_take_step<T: Scalar>(s: Seq<T>, i: int)
    requires
        0 <= i < s.len(),
    ensures
        sum_of_squares(s.take(i + 1)) == sum_of_squares(s.take(i)).add_spec(
            s[i].mul_spec(s[i]),
        ),
{
    assert(s.take(i + 1).drop_last() =~= s.take(i));
    assert(s.take(i + 1).last() == s[i]);
}

/// Over the `i64` algebra, the sum of squares of an all-zero vector is
/// zero.
pub proof fn lemma_sum_of_squares_all_zero(s: Seq<i64>)
    requires
        forall|i: int| 0 <= i < s.len() ==> s[i] == 0i64,
    ensures
        sum_of_squares(s) == 0i64,
    decreases s.len(),
{
    if s.len() > 0 {
        lemma_sum_of_squares_all_zero(s.drop_last());
        assert(s.last() == 0i64);
        assert((s.last() as int) * (s.last() as int) == 0) by (nonlinear_arith)
            requires
                s.last() == 0i64,
        ;
    }
}

/// The Euclidean norm of a vector.
#[verifier::loop_isolation(false)]
pub fn norm2<T: Scalar>(v: &Vec<T>) -> (r: T)
    ensures
        r == norm2_spec(v@),
{
    let mut acc: T = T::zero();
    let mut i: usize = 0;
    while i < v.len()
        invariant
            i <= v@.len(),
            acc == sum_of_squares(v@.take(i as int)),
        decreases v@.len() - i,
    {
        proof {
            lemma_sum_of_squares_take_step(v@, i as int);
        }
        let x: T = v[i];
        acc = acc.add(x.mul(x));
        i = i + 1;
    }
    proof {
        assert(v@.take(v@.len() as int) =~= v@);
    }
    acc.sqrt()
}

/// The Euclidean distance between two vectors of one length, computed
/// without materializing their difference.
#[verifier::loop_isolation(false)]
pub fn norm2_of_diff<T: Scalar>(a: &Vec<T>, b: &Vec<T>) -> (r: T)
    requires
        a@.len() == b@.len(),
    ensures
        r == norm2_spec(diff_spec(a@, b@)),
{
    let mut acc: T = T::zero();
    let mut i: usize = 0;
    while i < a.len()
        invariant
            i <= a@.len(),
            acc == sum_of_squares(diff_spec(a@, b@).take(i as int)),
        decreases a@.len() - i,
    {
        proof {
            lemma_sum_of_squares_take_step(diff_spec(a@, b@), i as int);
        }
        let x: T = a[i].sub(b[i]);
        acc = acc.add(x.mul(x));
        i = i + 1;
    }
    proof {
        assert(diff_spec(a@, b@).take(a@.len() as int) =~= diff_spec(a@, b@));
    }
    acc.sqrt()
}

} // verus!

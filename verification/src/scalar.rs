//! The scalar algebra that the solver is generic over.
//!
//! Every arithmetic operation the engine performs goes through the
//! [`Scalar`] trait, and each executable operation is pinned to a spec-level
//! twin. The engine's contracts are therefore exact for any algebra: they
//! state, operation by operation, which value each buffer holds. This module
//! also provides a fully verified saturating algebra on `i64`.

use vstd::prelude::*;

verus! {

use vstd::math::abs;

/// A scalar number type for the solver.
///
/// Each executable operation must return exactly what its spec-level twin
/// describes, so that the engine's contracts compose. Beyond that the trait
/// asks nothing of the algebra: division by a zero scalar and the square
/// root of a negative scalar must merely return some value rather than
/// diverge.
pub trait Scalar: Sized + Copy {
    /// The additive identity, used to seed accumulators.
    spec fn zero_spec() -> Self;

    spec fn add_spec(self, other: Self) -> Self;

    spec fn sub_spec(self, other: Self) -> Self;

    spec fn mul_spec(self, other: Self) -> Self;

    spec fn div_spec(self, other: Self) -> Self;

    spec fn sqrt_spec(self) -> Self;

    /// The strict order the solver stops by.
    spec fn lt_spec(self, other: Self) -> bool;

    fn zero() -> (r: Self)
        ensures
            r == Self::zero_spec(),
    ;

    fn add(self, other: Self) -> (r: Self)
        ensures
            r == self.add_spec(other),
    ;

    fn sub(self, other: Self) -> (r: Self)
        ensures
            r == self.sub_spec(other),
    ;

    fn mul(self, other: Self) -> (r: Self)
        ensures
            r == self.mul_spec(other),
    ;

    fn div(self, other: Self) -> (r: Self)
        ensures
            r == self.div_spec(other),
    ;

    fn sqrt(self) -> (r: Self)
        ensures
            r == self.sqrt_spec(),
    ;

    fn lt(self, other: Self) -> (r: bool)
        ensures
            r == self.lt_spec(other),
    ;
}

/// Clamps a mathematical integer into the `i64` range.
pub open spec fn clip_i64(v: int) -> i64 {
    if v > i64::MAX {
        i64::MAX
    } else if v < i64::MIN {
        i64::MIN
    } else {
        v as i64
    }
}

/// Division truncated towards zero, the convention machine integers use.
pub open spec fn trunc_div(a: int, b: int) -> int {
    let q = (abs(a) as int) / (abs(b) as int);
    if (a < 0) <==> (b < 0) {
        q
    } else {
        -q
    }
}

/// The integer square root: the largest `r` with `r * r <= n` (and 0 for
/// `n <= 0`), defined by primitive recursion.
pub open spec fn isqrt(n: int) -> int
    decreases n,
{
    if n <= 0 {
        0
    } else {
        let r = isqrt(n - 1);
        if (r + 1) * (r + 1) <= n {
            r + 1
        } else {
            r
        }
    }
}

/// `isqrt(n)` is the unique nonnegative root with `r * r <= n < (r+1) * (r+1)`.
pub proof fn lemma_isqrt_bounds(n: int)
    requires
        n >= 0,
    ensures
        isqrt(n) >= 0,
        isqrt(n) * isqrt(n) <= n,
        n < (isqrt(n) + 1) * (isqrt(n) + 1),
    decreases n,
{
    if n == 0 {
    } else {
        lemma_isqrt_bounds(n - 1);
        let r = isqrt(n - 1);
        let s = isqrt(n);
        if (r + 1) * (r + 1) <= n {
            assert(s == r + 1);
            assert(n <= (r + 1) * (r + 1));
            assert(n < (s + 1) * (s + 1)) by (nonlinear_arith)
                requires
                    r >= 0,
                    s == r + 1,
                    n <= (r + 1) * (r + 1),
            ;
        } else {
            assert(s == r);
        }
    }
}

/// Any nonnegative `r` squeezed by `r * r <= n < (r+1) * (r+1)` equals `isqrt(n)`.
pub proof fn lemma_isqrt_unique(n: int, r: int)
    requires
        n >= 0,
        r >= 0,
        r * r <= n,
        n < (r + 1) * (r + 1),
    ensures
        r == isqrt(n),
{
    lemma_isqrt_bounds(n);
    let s = isqrt(n);
    if r < s {
        assert((r + 1) * (r + 1) <= s * s) by (nonlinear_arith)
            requires
                0 <= r + 1 <= s,
        ;
    } else if s < r {
        assert((s + 1) * (s + 1) <= r * r) by (nonlinear_arith)
            requires
                0 <= s + 1 <= r,
        ;
    }
}

proof fn lemma_mul_bound(a: int, b: int, m: int)
    requires
        -m <= a <= m,
        -m <= b <= m,
        0 <= m,
    ensures
        -(m * m) <= a * b <= m * m,
{
    assert(-(m * m) <= a * b <= m * m) by (nonlinear_arith)
        requires
            -m <= a <= m,
            -m <= b <= m,
            0 <= m,
    ;
}

/// The largest `u64` whose square still fits in `i64`.
const ISQRT_CAP: u64 = 3037000499;

/// The saturating scalar algebra on `i64`: sums, differences and products
/// clamp at the ends of the range, division truncates towards zero (and
/// yields 0 on a zero divisor), and the square root is the integer square
/// root. Exact and total, it exercises the whole engine under verification.
impl Scalar for i64 {
    open spec fn zero_spec() -> i64 {
        0
    }

    open spec fn add_spec(self, other: i64) -> i64 {
        clip_i64(self + other)
    }

    open spec fn sub_spec(self, other: i64) -> i64 {
        clip_i64(self - other)
    }

    open spec fn mul_spec(self, other: i64) -> i64 {
        clip_i64(self * other)
    }

    open spec fn div_spec(self, other: i64) -> i64 {
        if other == 0 {
            0
        } else {
            clip_i64(trunc_div(self as int, other as int))
        }
    }

    open spec fn sqrt_spec(self) -> i64 {
        if self <= 0 {
            0
        } else {
            isqrt(self as int) as i64
        }
    }

    open spec fn lt_spec(self, other: i64) -> bool {
        self < other
    }

    fn zero() -> (r: i64)
        ensures
            r == Self::zero_spec(),
    {
        0
    }

    fn add(self, other: i64) -> (r: i64)
        ensures
            r == self.add_spec(other),
    {
        let s: i128 = self as i128 + other as i128;
        if s > i64::MAX as i128 {
            i64::MAX
        } else if s < i64::MIN as i128 {
            i64::MIN
        } else {
            s as i64
        }
    }

    fn sub(self, other: i64) -> (r: i64)
        ensures
            r == self.sub_spec(other),
    {
        let s: i128 = self as i128 - other as i128;
        if s > i64::MAX as i128 {
            i64::MAX
        } else if s < i64::MIN as i128 {
            i64::MIN
        } else {
            s as i64
        }
    }

    fn mul(self, other: i64) -> (r: i64)
        ensures
            r == self.mul_spec(other),
    {
        proof {
            lemma_mul_bound(self as int, other as int, 0x8000_0000_0000_0000);
        }
        let p: i128 = (self as i128) * (other as i128);
        if p > i64::MAX as i128 {
            i64::MAX
        } else if p < i64::MIN as i128 {
            i64::MIN
        } else {
            p as i64
        }
    }

    fn div(self, other: i64) -> (r: i64)
        ensures
            r == self.div_spec(other),
    {
        if other == 0 {
            return 0;
        }
        let ua: u64 = if self >= 0 {
            self as u64
        } else {
            (-(self as i128)) as u64
        };
        let ub: u64 = if other >= 0 {
            other as u64
        } else {
            (-(other as i128)) as u64
        };
        let uq: u64 = ua / ub;
        if (self < 0) != (other < 0) {
            (-(uq as i128)) as i64
        } else {
            if uq > i64::MAX as u64 {
                i64::MAX
            } else {
                uq as i64
            }
        }
    }

    fn sqrt(self) -> (r: i64)
        ensures
            r == self.sqrt_spec(),
    {
        if self <= 0 {
            return 0;
        }
        proof {
            lemma_isqrt_bounds(self as int);
        }
        let n: u64 = self as u64;
        let mut lo: u64 = 0;
        let mut hi: u64 = if n < ISQRT_CAP {
            n
        } else {
            ISQRT_CAP
        };
        proof {
            if n < ISQRT_CAP {
                assert((n as int + 1) * (n as int + 1) > n as int) by (nonlinear_arith)
                    requires
                        n >= 1,
                ;
            } else {
                assert(n as int <= i64::MAX as int);
                assert((ISQRT_CAP as int + 1) * (ISQRT_CAP as int + 1) > i64::MAX as int);
            }
        }
        while lo < hi
            invariant
                lo <= hi <= ISQRT_CAP,
                (lo as int) * (lo as int) <= n as int,
                (n as int) < ((hi as int) + 1) * ((hi as int) + 1),
            decreases hi - lo,
        {
            let mid: u64 = lo + (hi - lo + 1) / 2;
            proof {
                lemma_mul_bound(mid as int, mid as int, ISQRT_CAP as int);
            }
            let sq: u64 = mid * mid;
            if sq <= n {
                lo = mid;
            } else {
                hi = mid - 1;
            }
        }
        proof {
            lemma_isqrt_unique(self as int, lo as int);
        }
        lo as i64
    }

    fn lt(self, other: i64) -> (r: bool)
        ensures
            r == self.lt_spec(other),
    {
        self < other
    }
}

} // verus!

//! Scalar helpers: range predicates, truncating division and integer
//! square roots, shared by the vector, matrix and camera modules.

use vstd::prelude::*;

verus! {

/// Whether a mathematical integer fits in an `i64`.
pub open spec fn in_i64(x: int) -> bool {
    i64::MIN <= x <= i64::MAX
}

/// Division truncating toward zero, the semantics of `/` on machine
/// integers. (`/` on `int` in specifications is Euclidean division,
/// which differs on negative dividends.)
pub open spec fn tdiv(x: int, d: int) -> int
    recommends
        d != 0,
{
    if x == 0 {
        0
    } else if x > 0 && d > 0 {
        x / d
    } else if x < 0 && d < 0 {
        (x * -1) / (d * -1)
    } else if x < 0 {
        ((x * -1) / d) * -1
    } else {
        (x / (d * -1)) * -1
    }
}

/// `r` is the integer square root of `n`: the greatest integer whose
/// square does not exceed `n`.
pub open spec fn is_isqrt(n: int, r: int) -> bool {
    &&& 0 <= r
    &&& r * r <= n
    &&& n < (r + 1) * (r + 1)
}

/// The integer square root of `n`, as a value. `lemma_isqrt_unique`
/// ties it to `is_isqrt`.
pub open spec fn isqrt(n: int) -> int {
    choose|r: int| is_isqrt(n, r)
}

/// Squares over nonnegative integers are monotonic, so the integer
/// square root is unique.
pub proof fn lemma_isqrt_unique(n: int, r1: int, r2: int)
    requires
        is_isqrt(n, r1),
        is_isqrt(n, r2),
    ensures
        r1 == r2,
{
    if r1 < r2 {
        assert((r1 + 1) * (r1 + 1) <= r2 * r2) by (nonlinear_arith)
            requires
                0 <= r1,
                r1 < r2,
        ;
    }
    if r2 < r1 {
        assert((r2 + 1) * (r2 + 1) <= r1 * r1) by (nonlinear_arith)
            requires
                0 <= r2,
                r2 < r1,
        ;
    }
}

/// Any witness to `is_isqrt(n, r)` equals `isqrt(n)`.
pub proof fn lemma_isqrt_of_witness(n: int, r: int)
    requires
        is_isqrt(n, r),
    ensures
        isqrt(n) == r,
{
    assert(is_isqrt(n, isqrt(n)));
    lemma_isqrt_unique(n, isqrt(n), r);
}

/// Integer square root by binary search on the answer.
pub fn isqrt_u64(s: u64) -> (r: u64)
    ensures
        is_isqrt(s as int, r as int),
        r as int == isqrt(s as int),
{
    if s == 0 {
        proof {
            lemma_isqrt_of_witness(s as int, 0);
        }
        return 0;
    }
    let mut lo: u64 = 0;
    let mut hi: u64 = 4294967296;
    proof {
        assert(s < hi * hi) by (nonlinear_arith)
            requires
                hi == 4294967296u64,
                s <= u64::MAX,
        ;
    }
    while hi - lo > 1
        invariant
            0 <= lo < hi <= 4294967296,
            lo * lo <= s,
            s < hi * hi,
        decreases hi - lo,
    {
        let mid: u64 = lo + (hi - lo) / 2;
        proof {
            assert(mid < hi);
            assert(mid * mid <= 4294967295u64 * 4294967295u64) by (nonlinear_arith)
                requires
                    mid <= 4294967295u64,
            ;
        }
        if mid * mid <= s {
            lo = mid;
        } else {
            hi = mid;
        }
    }
    proof {
        lemma_isqrt_of_witness(s as int, lo as int);
    }
    lo
}

/// Truncating division by a positive divisor never grows the dividend's
/// magnitude and never flips its sign.
pub proof fn lemma_tdiv_bounds(x: int, d: int)
    requires
        d > 0,
    ensures
        x >= 0 ==> 0 <= tdiv(x, d) <= x,
        x <= 0 ==> x <= tdiv(x, d) <= 0,
{
    if x > 0 {
        assert(0 <= x / d <= x) by (nonlinear_arith)
            requires
                x > 0,
                d >= 1,
        ;
    } else if x < 0 {
        assert(0 <= (x * -1) / d <= x * -1) by (nonlinear_arith)
            requires
                x < 0,
                d >= 1,
        ;
    }
}

/// Truncating `i64` division. The precondition rules out the two cases
/// machine division cannot represent: a zero divisor and
/// `i64::MIN / -1`, whose true quotient exceeds `i64::MAX`.
pub fn div_i64(a: i64, b: i64) -> (r: i64)
    requires
        b != 0,
        in_i64(tdiv(a as int, b as int)),
    ensures
        r == tdiv(a as int, b as int),
{
    let q: Option<i64> = a.checked_div(b);
    q.unwrap()
}

} // verus!

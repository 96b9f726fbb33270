//! Verified integer kernels: floor square root and floor division.
//!
//! The collision queries replace real square roots by the floor square root
//! of an exact integer, and real division by floor division, so every
//! reported quantity is a closed formula over the inputs.

use vstd::prelude::*;
use vstd::arithmetic::div_mod::{lemma_fundamental_div_mod, lemma_fundamental_div_mod_converse,
    lemma_mod_bound};

verus! {

/// The floor of the square root of `n` (0 for negative `n`).
pub open spec fn sqrt_floor(n: int) -> int
    decreases n,
{
    if n <= 0 {
        0
    } else {
        let r = sqrt_floor(n - 1);
        if (r + 1) * (r + 1) <= n {
            r + 1
        } else {
            r
        }
    }
}

/// `sqrt_floor(n)` is the unique `r >= 0` with `r^2 <= n < (r+1)^2`.
pub proof fn lemma_sqrt_floor(n: int)
    requires
        n >= 0,
    ensures
        0 <= sqrt_floor(n),
        sqrt_floor(n) * sqrt_floor(n) <= n,
        n < (sqrt_floor(n) + 1) * (sqrt_floor(n) + 1),
    decreases n,
{
    if n == 0 {
    } else {
        lemma_sqrt_floor(n - 1);
        let r = sqrt_floor(n - 1);
        if (r + 1) * (r + 1) <= n {
            assert(n - 1 < (r + 1) * (r + 1));
            assert(n < (r + 2) * (r + 2)) by (nonlinear_arith)
                requires
                    r >= 0,
                    n <= (r + 1) * (r + 1),
            ;
        }
    }
}

/// Any `r >= 0` with `r^2 <= n < (r+1)^2` equals `sqrt_floor(n)`.
pub proof fn lemma_sqrt_floor_unique(n: int, r: int)
    requires
        0 <= r,
        r * r <= n,
        n < (r + 1) * (r + 1),
    ensures
        r == sqrt_floor(n),
{
    lemma_sqrt_floor(n);
    let s = sqrt_floor(n);
    assert(r == s) by (nonlinear_arith)
        requires
            0 <= r,
            0 <= s,
            r * r <= n,
            n < (r + 1) * (r + 1),
            s * s <= n,
            n < (s + 1) * (s + 1),
    ;
}

/// Floor square root, computed by bisection.
pub fn isqrt(n: u128) -> (r: u128)
    requires
        n < 0x4000_0000_0000_0000_0000_0000_0000_0000u128,
    ensures
        r as int == sqrt_floor(n as int),
        r * r <= n,
{
    let mut lo: u128 = 0;
    let mut hi: u128 = 0x8000_0000_0000_0000;
    while lo + 1 < hi
        invariant
            lo < hi,
            hi <= 0x8000_0000_0000_0000,
            lo * lo <= n,
            (n as int) < (hi as int) * (hi as int),
        decreases hi - lo,
    {
        let mid = lo + (hi - lo) / 2;
        proof {
            assert((mid as int) * (mid as int)
                <= 0x4000_0000_0000_0000_0000_0000_0000_0000int) by (nonlinear_arith)
                requires
                    0 <= mid as int <= 0x8000_0000_0000_0000int,
            ;
        }
        if mid * mid <= n {
            lo = mid;
        } else {
            hi = mid;
        }
    }
    proof {
        assert((n as int) < ((lo + 1) as int) * ((lo + 1) as int));
        lemma_sqrt_floor_unique(n as int, lo as int);
    }
    lo
}

/// Floor division by a positive divisor (rounds toward negative infinity,
/// matching mathematical integer division).
pub fn div_floor(a: i128, b: i128) -> (r: i128)
    requires
        0 < b,
        -0x4000_0000_0000_0000_0000_0000_0000_0000 < a
            < 0x4000_0000_0000_0000_0000_0000_0000_0000,
    ensures
        r as int == a as int / b as int,
{
    if a >= 0 {
        let q = (a as u128) / (b as u128);
        proof {
            lemma_fundamental_div_mod(a as int, b as int);
            lemma_mod_bound(a as int, b as int);
            assert(q <= a as int) by (nonlinear_arith)
                requires
                    q >= 0,
                    b >= 1,
                    a as int == (b as int) * (q as int) + ((a as int) % (b as int)),
                    (a as int) % (b as int) >= 0,
            ;
        }
        q as i128
    } else {
        let n = (-a) as u128;
        let d = b as u128;
        let q = (n + d - 1) / d;
        proof {
            let qi = q as int;
            let m = (n + d - 1) as int;
            lemma_fundamental_div_mod(m, d as int);
            lemma_mod_bound(m, d as int);
            assert(qi <= n as int) by (nonlinear_arith)
                requires
                    qi >= 0,
                    d as int >= 1,
                    n as int >= 1,
                    m == n + d - 1,
                    m == (d as int) * qi + (m % (d as int)),
                    0 <= m % (d as int),
            ;
            assert(0 <= a + d * qi < d) by (nonlinear_arith)
                requires
                    d > 0,
                    n == -(a as int),
                    m == n + d - 1,
                    m == (d as int) * qi + (m % (d as int)),
                    0 <= m % (d as int) < d,
            ;
            assert(a as int == (-qi) * (d as int) + (a + d * qi)) by (nonlinear_arith);
            lemma_fundamental_div_mod_converse(a as int, d as int, -qi, a + d * qi);
        }
        -(q as i128)
    }
}

/// Floor division by a positive divisor does not increase magnitude.
pub proof fn lemma_div_mag(a: int, m: int, d: int)
    requires
        1 <= d,
        0 <= m,
        -m <= a <= m,
    ensures
        -m <= a / d <= m,
{
    lemma_fundamental_div_mod(a, d);
    lemma_mod_bound(a, d);
    assert(-m <= a / d <= m) by (nonlinear_arith)
        requires
            1 <= d,
            0 <= m,
            -m <= a <= m,
            a == d * (a / d) + a % d,
            0 <= a % d < d,
    ;
}

} // verus!

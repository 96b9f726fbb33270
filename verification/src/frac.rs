//! Exact rational scalars and rational points.
//!
//! A parametric time-of-impact or a penetration depth is an exact rational
//! `num / den` with positive denominator; two such values are compared by
//! cross-multiplication, which is exact in 128-bit arithmetic as long as
//! numerators and denominators stay within the bounds below.  A rational
//! point shares one denominator across its three coordinates.

use vstd::prelude::*;
use crate::vec3::{lemma_mul_bound, V3};

verus! {

/// Largest numerator magnitude a well-formed rational scalar may carry.
pub const FRAC_NUM_MAX: i128 = 0x1_0000_0000_0000_0000;

/// Largest denominator a well-formed rational scalar may carry.
pub const FRAC_DEN_MAX: i128 = 0x4000_0000_0000_0000;

/// `a/b < c/d`, for positive denominators, by cross-multiplication.
pub open spec fn rat_lt(a: int, b: int, c: int, d: int) -> bool {
    a * d < c * b
}

/// `a/b <= c/d`, for positive denominators, by cross-multiplication.
pub open spec fn rat_le(a: int, b: int, c: int, d: int) -> bool {
    a * d <= c * b
}

/// Mathematical view of a rational scalar.
pub ghost struct FR {
    pub num: int,
    pub den: int,
}

/// `a < b` on rational views with positive denominators.
pub open spec fn fr_lt(a: FR, b: FR) -> bool {
    rat_lt(a.num, a.den, b.num, b.den)
}

/// `a <= b` on rational views with positive denominators.
pub open spec fn fr_le(a: FR, b: FR) -> bool {
    rat_le(a.num, a.den, b.num, b.den)
}

/// Transitivity of the cross-multiplied rational order on scalars.
proof fn lemma_rat_lt_le_trans(an: int, ad: int, bn: int, bd: int, cn: int, cd: int)
    by (nonlinear_arith)
    requires
        ad > 0,
        bd > 0,
        cd > 0,
        an * bd < bn * ad,
        bn * cd <= cn * bd,
    ensures
        an * cd < cn * ad,
{
}

/// A strict rational bound carries through a non-strict one.
pub proof fn lemma_fr_lt_le_trans(a: FR, b: FR, c: FR)
    requires
        a.den > 0,
        b.den > 0,
        c.den > 0,
        fr_lt(a, b),
        fr_le(b, c),
    ensures
        fr_lt(a, c),
        fr_le(a, c),
{
    lemma_rat_lt_le_trans(a.num, a.den, b.num, b.den, c.num, c.den);
}

/// An exact rational scalar with positive denominator.
#[derive(Clone, Copy, Debug, PartialEq, Eq, Structural)]
pub struct Frac {
    pub num: i128,
    pub den: i128,
}

impl View for Frac {
    type V = FR;

    open spec fn view(&self) -> FR {
        FR { num: self.num as int, den: self.den as int }
    }
}

impl Frac {
    /// Well-formed: positive denominator, both parts within the bounds that
    /// make cross-multiplication exact.
    pub open spec fn valid(self) -> bool {
        0 < self.den <= FRAC_DEN_MAX as int && -(FRAC_NUM_MAX as int) <= self.num
            <= FRAC_NUM_MAX as int
    }

    /// The integer `n` as a rational.
    pub fn whole(n: i64) -> (r: Frac)
        ensures
            r.num == n as int,
            r.den == 1,
            r.valid(),
    {
        Frac { num: n as i128, den: 1 }
    }

    /// Exact strict comparison of two rationals.
    pub fn lt(self, other: Frac) -> (r: bool)
        requires
            self.valid(),
            other.valid(),
        ensures
            r == rat_lt(self.num as int, self.den as int, other.num as int, other.den as int),
    {
        proof {
            lemma_mul_bound(
                self.num as int,
                other.den as int,
                FRAC_NUM_MAX as int,
                FRAC_DEN_MAX as int,
            );
            lemma_mul_bound(
                other.num as int,
                self.den as int,
                FRAC_NUM_MAX as int,
                FRAC_DEN_MAX as int,
            );
        }
        self.num * other.den < other.num * self.den
    }
}

/// Mathematical view of a rational point: integer coordinates over one
/// positive denominator.
pub ghost struct FV3 {
    pub num: V3,
    pub den: int,
}

/// A rational point: three numerators over one positive denominator.
#[derive(Clone, Copy, Debug, PartialEq, Eq, Structural)]
pub struct FracVec {
    pub x: i128,
    pub y: i128,
    pub z: i128,
    pub den: i128,
}

impl View for FracVec {
    type V = FV3;

    open spec fn view(&self) -> FV3 {
        FV3 {
            num: V3 { x: self.x as int, y: self.y as int, z: self.z as int },
            den: self.den as int,
        }
    }
}

impl FracVec {
    pub open spec fn valid(self) -> bool {
        0 < self.den
    }

    /// The origin.
    pub fn zero() -> (r: FracVec)
        ensures
            r@ == (FV3 { num: V3 { x: 0int, y: 0int, z: 0int }, den: 1int }),
            r.valid(),
    {
        FracVec { x: 0, y: 0, z: 0, den: 1 }
    }

    /// The unit vector along the second axis.
    pub fn unit_y() -> (r: FracVec)
        ensures
            r@ == (FV3 { num: V3 { x: 0int, y: 1int, z: 0int }, den: 1int }),
            r.valid(),
    {
        FracVec { x: 0, y: 1, z: 0, den: 1 }
    }
}

} // verus!

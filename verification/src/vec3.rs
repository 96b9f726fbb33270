//! Grid vectors: three signed fixed-point coordinates, with a mathematical
//! view as a triple of unbounded integers and exact executable arithmetic.

use vstd::prelude::*;

verus! {

/// Coordinates of shapes handed to the collision queries stay within this
/// many grid units of the origin, which keeps every intermediate product of
/// the queries inside 128-bit arithmetic.
pub const COORD_MAX: i64 = 4096;

/// Mathematical view of a grid vector: a triple of unbounded integers.
pub ghost struct V3 {
    pub x: int,
    pub y: int,
    pub z: int,
}

pub open spec fn v3_add(a: V3, b: V3) -> V3 {
    V3 { x: a.x + b.x, y: a.y + b.y, z: a.z + b.z }
}

pub open spec fn v3_sub(a: V3, b: V3) -> V3 {
    V3 { x: a.x - b.x, y: a.y - b.y, z: a.z - b.z }
}

pub open spec fn v3_neg(a: V3) -> V3 {
    V3 { x: -a.x, y: -a.y, z: -a.z }
}

pub open spec fn v3_scale(a: V3, k: int) -> V3 {
    V3 { x: a.x * k, y: a.y * k, z: a.z * k }
}

pub open spec fn v3_dot(a: V3, b: V3) -> int {
    a.x * b.x + a.y * b.y + a.z * b.z
}

pub open spec fn v3_cross(a: V3, b: V3) -> V3 {
    V3 {
        x: a.y * b.z - a.z * b.y,
        y: a.z * b.x - a.x * b.z,
        z: a.x * b.y - a.y * b.x,
    }
}

/// Squared Euclidean length.
pub open spec fn v3_norm2(a: V3) -> int {
    v3_dot(a, a)
}

/// Every coordinate lies within `b` of zero.
pub open spec fn v3_bounded(a: V3, b: int) -> bool {
    -b <= a.x <= b && -b <= a.y <= b && -b <= a.z <= b
}

/// A grid vector: a point or direction with fixed-point coordinates.
#[derive(Clone, Copy, Debug, PartialEq, Eq, Structural)]
pub struct Vec3 {
    pub x: i64,
    pub y: i64,
    pub z: i64,
}

impl View for Vec3 {
    type V = V3;

    open spec fn view(&self) -> V3 {
        V3 { x: self.x as int, y: self.y as int, z: self.z as int }
    }
}

impl Vec3 {
    pub fn new(x: i64, y: i64, z: i64) -> (r: Vec3)
        ensures
            r@ == (V3 { x: x as int, y: y as int, z: z as int }),
    {
        Vec3 { x, y, z }
    }

    /// The coordinates lie within `b` units of the origin.
    pub open spec fn bounded(self, b: int) -> bool {
        v3_bounded(self@, b)
    }

    /// Within the range admitted for shape coordinates.
    pub open spec fn in_range(self) -> bool {
        self.bounded(COORD_MAX as int)
    }

}

/// A wide vector: 128-bit coordinates for intermediate exact arithmetic
/// (denominator-scaled points, cross products of differences).
#[derive(Clone, Copy, Debug, PartialEq, Eq, Structural)]
pub struct Wide3 {
    pub x: i128,
    pub y: i128,
    pub z: i128,
}

impl View for Wide3 {
    type V = V3;

    open spec fn view(&self) -> V3 {
        V3 { x: self.x as int, y: self.y as int, z: self.z as int }
    }
}

impl Vec3 {
    /// Widen the coordinates to 128 bits.
    pub fn wide(self) -> (r: Wide3)
        ensures
            r@ == self@,
    {
        Wide3 { x: self.x as i128, y: self.y as i128, z: self.z as i128 }
    }
}

impl Wide3 {
    pub open spec fn bounded(self, b: int) -> bool {
        v3_bounded(self@, b)
    }

    /// Exact dot product; the ghost bounds witness that it fits.
    pub fn dot(self, other: Wide3, Ghost(ba): Ghost<int>, Ghost(bb): Ghost<int>) -> (r: i128)
        requires
            self.bounded(ba),
            other.bounded(bb),
            0 <= ba,
            0 <= bb,
            ba * bb <= 0x2000_0000_0000_0000_0000_0000_0000_0000,
        ensures
            r as int == v3_dot(self@, other@),
    {
        proof {
            lemma_mul_bound(self@.x, other@.x, ba, bb);
            lemma_mul_bound(self@.y, other@.y, ba, bb);
            lemma_mul_bound(self@.z, other@.z, ba, bb);
        }
        self.x * other.x + self.y * other.y + self.z * other.z
    }

    /// Exact cross product; the ghost bounds witness that it fits.
    pub fn cross(self, other: Wide3, Ghost(ba): Ghost<int>, Ghost(bb): Ghost<int>) -> (r: Wide3)
        requires
            self.bounded(ba),
            other.bounded(bb),
            0 <= ba,
            0 <= bb,
            ba * bb <= 0x2000_0000_0000_0000_0000_0000_0000_0000,
        ensures
            r@ == v3_cross(self@, other@),
    {
        proof {
            lemma_mul_bound(self@.y, other@.z, ba, bb);
            lemma_mul_bound(self@.z, other@.y, ba, bb);
            lemma_mul_bound(self@.z, other@.x, ba, bb);
            lemma_mul_bound(self@.x, other@.z, ba, bb);
            lemma_mul_bound(self@.x, other@.y, ba, bb);
            lemma_mul_bound(self@.y, other@.x, ba, bb);
        }
        Wide3 {
            x: self.y * other.z - self.z * other.y,
            y: self.z * other.x - self.x * other.z,
            z: self.x * other.y - self.y * other.x,
        }
    }

    /// Exact squared length; the ghost bound witnesses that it fits.
    pub fn norm2(self, Ghost(ba): Ghost<int>) -> (r: i128)
        requires
            self.bounded(ba),
            0 <= ba,
            ba * ba <= 0x2000_0000_0000_0000_0000_0000_0000_0000,
        ensures
            r as int == v3_norm2(self@),
            r >= 0,
    {
        proof {
            lemma_norm2_nonneg(self@);
        }
        self.dot(self, Ghost(ba), Ghost(ba))
    }

    /// Exact componentwise scaling; the ghost bounds witness that it fits.
    pub fn scale(self, k: i128, Ghost(ba): Ghost<int>, Ghost(bk): Ghost<int>) -> (r: Wide3)
        requires
            self.bounded(ba),
            -bk <= k <= bk,
            0 <= ba,
            0 <= bk,
            ba * bk <= 0x2000_0000_0000_0000_0000_0000_0000_0000,
        ensures
            r@ == v3_scale(self@, k as int),
    {
        proof {
            lemma_mul_bound(self@.x, k as int, ba, bk);
            lemma_mul_bound(self@.y, k as int, ba, bk);
            lemma_mul_bound(self@.z, k as int, ba, bk);
        }
        Wide3 { x: self.x * k, y: self.y * k, z: self.z * k }
    }

    /// Exact difference of two wide vectors within half the type range.
    pub fn sub(self, other: Wide3) -> (r: Wide3)
        requires
            self.bounded(0x2000_0000_0000_0000_0000_0000_0000_0000),
            other.bounded(0x2000_0000_0000_0000_0000_0000_0000_0000),
        ensures
            r@ == v3_sub(self@, other@),
    {
        Wide3 { x: self.x - other.x, y: self.y - other.y, z: self.z - other.z }
    }
}

/// Product of two values bounded in magnitude is bounded by the product of
/// the bounds.
pub proof fn lemma_mul_bound(a: int, b: int, ca: int, cb: int)
    by (nonlinear_arith)
    requires
        -ca <= a <= ca,
        -cb <= b <= cb,
    ensures
        -(ca * cb) <= a * b <= ca * cb,
{
}

/// A dot product of vectors bounded by `ca` and `cb` is bounded by
/// `3 * ca * cb`.
pub proof fn lemma_dot_bound(a: V3, b: V3, ca: int, cb: int)
    requires
        v3_bounded(a, ca),
        v3_bounded(b, cb),
    ensures
        -(3 * ca * cb) <= v3_dot(a, b) <= 3 * ca * cb,
{
    lemma_mul_bound(a.x, b.x, ca, cb);
    lemma_mul_bound(a.y, b.y, ca, cb);
    lemma_mul_bound(a.z, b.z, ca, cb);
    assert(3 * ca * cb == ca * cb + ca * cb + ca * cb) by (nonlinear_arith);
}

/// Each coordinate of a cross product of vectors bounded by `ca` and `cb`
/// is bounded by `2 * ca * cb`.
pub proof fn lemma_cross_bound(a: V3, b: V3, ca: int, cb: int)
    requires
        v3_bounded(a, ca),
        v3_bounded(b, cb),
    ensures
        v3_bounded(v3_cross(a, b), 2 * ca * cb),
{
    lemma_mul_bound(a.y, b.z, ca, cb);
    lemma_mul_bound(a.z, b.y, ca, cb);
    lemma_mul_bound(a.z, b.x, ca, cb);
    lemma_mul_bound(a.x, b.z, ca, cb);
    lemma_mul_bound(a.x, b.y, ca, cb);
    lemma_mul_bound(a.y, b.x, ca, cb);
    assert(2 * ca * cb == ca * cb + ca * cb) by (nonlinear_arith);
}

/// A scaled vector is bounded by the product of the bounds.
pub proof fn lemma_scale_bound(a: V3, k: int, ca: int, ck: int)
    requires
        v3_bounded(a, ca),
        -ck <= k <= ck,
    ensures
        v3_bounded(v3_scale(a, k), ca * ck),
{
    lemma_mul_bound(a.x, k, ca, ck);
    lemma_mul_bound(a.y, k, ca, ck);
    lemma_mul_bound(a.z, k, ca, ck);
}

/// A dot product of a vector with itself is nonnegative.
pub proof fn lemma_norm2_nonneg(a: V3)
    by (nonlinear_arith)
    ensures
        v3_norm2(a) >= 0,
        a.x * a.x <= v3_norm2(a),
        a.y * a.y <= v3_norm2(a),
        a.z * a.z <= v3_norm2(a),
{
}

} // verus!

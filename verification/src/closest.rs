//! Closest-point utilities: nearest point of a segment, and of a triangle,
//! to a query point.  The segment result is the exact rational clamped
//! projection; a grid variant rounds each coordinate down to the grid and
//! is what the shape queries compose with.

use vstd::prelude::*;
use crate::frac::{FracVec, FV3};
use crate::intmath::div_floor;
use crate::shapes::{Triangle, TriangleModel};
use crate::vec3::{lemma_dot_bound, lemma_mul_bound, lemma_norm2_nonneg, v3_add, v3_cross, v3_dot,
    v3_norm2, v3_scale, v3_sub, v3_bounded, Vec3, V3, Wide3};

verus! {

/// Segment ends handed to the closest-point routines stay within this
/// bound: shape coordinates, possibly doubled and shifted by a radius.
pub const SEG_END_MAX: i64 = 0x8000;

/// Query points may be much farther out (a ray-plane intersection point);
/// this bound keeps the squared distance inside 128 bits.
pub const SEG_POINT_MAX: i64 = 0x4000_0000_0000_0000;

/// Denominator of the clamped projection of a point onto `[a, b]`: the
/// squared segment length, or 1 for a degenerate segment.
pub open spec fn seg_den(a: V3, b: V3) -> int {
    if v3_norm2(v3_sub(b, a)) == 0 {
        1
    } else {
        v3_norm2(v3_sub(b, a))
    }
}

/// Numerator of the clamped projection parameter: the projection of
/// `p - a` onto `b - a`, clamped to `[0, seg_den]`.
pub open spec fn seg_tnum(a: V3, b: V3, p: V3) -> int {
    let raw = v3_dot(v3_sub(p, a), v3_sub(b, a));
    if v3_norm2(v3_sub(b, a)) == 0 {
        0
    } else if raw < 0 {
        0
    } else if raw > v3_norm2(v3_sub(b, a)) {
        v3_norm2(v3_sub(b, a))
    } else {
        raw
    }
}

/// The exact closest point of segment `[a, b]` to `p`:
/// `a + (seg_tnum/seg_den) * (b - a)` over the common denominator.
pub open spec fn seg_closest(a: V3, b: V3, p: V3) -> FV3 {
    FV3 {
        num: v3_add(v3_scale(a, seg_den(a, b)), v3_scale(v3_sub(b, a), seg_tnum(a, b, p))),
        den: seg_den(a, b),
    }
}

/// The closest point of the segment, rounded down to the grid.
pub open spec fn seg_closest_grid(a: V3, b: V3, p: V3) -> V3 {
    let q = seg_closest(a, b, p);
    V3 { x: q.num.x / q.den, y: q.num.y / q.den, z: q.num.z / q.den }
}

/// Sign test of `p` against the edge `va -> vb` of a face with normal
/// direction `n`: the scalar `((p - va) x (vb - va)) . n`.
pub open spec fn tri_edge_sign(p: V3, va: V3, vb: V3, n: V3) -> int {
    v3_dot(v3_cross(v3_sub(p, va), v3_sub(vb, va)), n)
}

/// `p` projects inside the triangle (all three edge tests on the same
/// side).  Displacing `p` along `n` does not change the outcome.
pub open spec fn tri_inside(t: TriangleModel, n: V3, p: V3) -> bool {
    tri_edge_sign(p, t.v0, t.v1, n) <= 0 && tri_edge_sign(p, t.v1, t.v2, n) <= 0
        && tri_edge_sign(p, t.v2, t.v0, n) <= 0
}

/// Nearest point of the triangle to `p` on the grid: `p` itself when it
/// projects inside, else the nearest of the three rounded edge closest
/// points, by a running minimum of squared distances.
pub open spec fn tri_closest_grid(t: TriangleModel, n: V3, p: V3) -> V3 {
    if tri_inside(t, n, p) {
        p
    } else {
        let q1 = seg_closest_grid(t.v0, t.v1, p);
        let q2 = seg_closest_grid(t.v1, t.v2, p);
        let q3 = seg_closest_grid(t.v2, t.v0, p);
        let d1 = v3_norm2(v3_sub(p, q1));
        let d2 = v3_norm2(v3_sub(p, q2));
        let d3 = v3_norm2(v3_sub(p, q3));
        if d2 < d1 {
            if d3 < d2 {
                q3
            } else {
                q2
            }
        } else {
            if d3 < d1 {
                q3
            } else {
                q1
            }
        }
    }
}

/// Exact closest point of the segment `[a, b]` to `point`, as a rational
/// point.  A degenerate segment (`a == b`) yields `a`.
pub fn closest_point_on_line(a: &Vec3, b: &Vec3, point: &Vec3) -> (r: FracVec)
    requires
        a.bounded(SEG_END_MAX as int),
        b.bounded(SEG_END_MAX as int),
        point.bounded(SEG_POINT_MAX as int),
    ensures
        r@ == seg_closest(a@, b@, point@),
        r.valid(),
        v3_bounded(r@.num, 0x5_0000_0000_0000int),
        0 < r@.den <= 0x3_0000_0000int,
{
    let ab = Wide3 {
        x: b.x as i128 - a.x as i128,
        y: b.y as i128 - a.y as i128,
        z: b.z as i128 - a.z as i128,
    };
    let ap = Wide3 {
        x: point.x as i128 - a.x as i128,
        y: point.y as i128 - a.y as i128,
        z: point.z as i128 - a.z as i128,
    };
    let ab2 = ab.norm2(Ghost(0x1_0000int));
    let raw = ap.dot(ab, Ghost(0x4000_0000_0000_8000int), Ghost(0x1_0000int));
    let den: i128 = if ab2 == 0 { 1 } else { ab2 };
    let tnum: i128 = if ab2 == 0 {
        0
    } else if raw < 0 {
        0
    } else if raw > ab2 {
        ab2
    } else {
        raw
    };
    proof {
        lemma_dot_bound(v3_sub(b@, a@), v3_sub(b@, a@), 0x1_0000, 0x1_0000);
        lemma_mul_bound(a@.x, den as int, SEG_END_MAX as int, 0x3_0000_0000int);
        lemma_mul_bound(a@.y, den as int, SEG_END_MAX as int, 0x3_0000_0000int);
        lemma_mul_bound(a@.z, den as int, SEG_END_MAX as int, 0x3_0000_0000int);
        lemma_mul_bound(v3_sub(b@, a@).x, tnum as int, 0x1_0000int, 0x3_0000_0000int);
        lemma_mul_bound(v3_sub(b@, a@).y, tnum as int, 0x1_0000int, 0x3_0000_0000int);
        lemma_mul_bound(v3_sub(b@, a@).z, tnum as int, 0x1_0000int, 0x3_0000_0000int);
    }
    FracVec {
        x: a.x as i128 * den + ab.x * tnum,
        y: a.y as i128 * den + ab.y * tnum,
        z: a.z as i128 * den + ab.z * tnum,
        den,
    }
}

/// The segment's closest point, each coordinate rounded down to the grid.
/// The result stays inside the axis-aligned box of the segment.
pub fn closest_point_on_line_grid(a: &Vec3, b: &Vec3, point: &Vec3) -> (r: Vec3)
    requires
        a.bounded(SEG_END_MAX as int),
        b.bounded(SEG_END_MAX as int),
        point.bounded(SEG_POINT_MAX as int),
    ensures
        r@ == seg_closest_grid(a@, b@, point@),
        r.bounded(SEG_END_MAX as int),
{
    let q = closest_point_on_line(a, b, point);
    let rx = div_floor(q.x, q.den);
    let ry = div_floor(q.y, q.den);
    let rz = div_floor(q.z, q.den);
    proof {
        lemma_seg_grid_box(a@, b@, point@);
    }
    Vec3 { x: rx as i64, y: ry as i64, z: rz as i64 }
}

/// Each coordinate of the rounded segment closest point lies between the
/// corresponding coordinates of the two ends.
pub proof fn lemma_seg_grid_box(a: V3, b: V3, p: V3)
    ensures
        vstd::math::min(a.x, b.x) <= seg_closest_grid(a, b, p).x <= vstd::math::max(a.x, b.x),
        vstd::math::min(a.y, b.y) <= seg_closest_grid(a, b, p).y <= vstd::math::max(a.y, b.y),
        vstd::math::min(a.z, b.z) <= seg_closest_grid(a, b, p).z <= vstd::math::max(a.z, b.z),
{
    let den = seg_den(a, b);
    let tnum = seg_tnum(a, b, p);
    lemma_norm2_nonneg(v3_sub(b, a));
    lemma_seg_grid_box_axis(a.x, b.x, tnum, den);
    lemma_seg_grid_box_axis(a.y, b.y, tnum, den);
    lemma_seg_grid_box_axis(a.z, b.z, tnum, den);
}

/// One axis of the box argument: for `0 <= t <= d`, the floor of
/// `(a*d + (b - a)*t) / d` lies between `a` and `b`.
pub proof fn lemma_seg_grid_box_axis(a: int, b: int, t: int, d: int)
    requires
        0 < d,
        0 <= t <= d,
    ensures
        vstd::math::min(a, b) <= (a * d + (b - a) * t) / d <= vstd::math::max(a, b),
{
    let lo = vstd::math::min(a, b);
    let hi = vstd::math::max(a, b);
    let num = a * d + (b - a) * t;
    assert(lo * d <= num && num <= hi * d) by (nonlinear_arith)
        requires
            0 < d,
            0 <= t <= d,
            lo <= a <= hi,
            lo == vstd::math::min(a, b),
            hi == vstd::math::max(a, b),
            num == a * d + (b - a) * t,
    ;
    vstd::arithmetic::div_mod::lemma_div_is_ordered(lo * d, num, d);
    vstd::arithmetic::div_mod::lemma_div_is_ordered(num, hi * d, d);
    vstd::arithmetic::div_mod::lemma_div_multiples_vanish(lo, d);
    vstd::arithmetic::div_mod::lemma_div_multiples_vanish(hi, d);
    assert(lo * d == d * lo && hi * d == d * hi) by (nonlinear_arith);
}

/// Nearest point of a triangle to `point`: `point` itself when it projects
/// inside (the three edge sign tests against `triangle_normal` agree),
/// else the nearest of the three edges' rounded closest points.  The
/// `triangle_normal` argument may be any positive multiple of
/// `(v1 - v0) x (v2 - v0)`.
pub fn closest_point_on_triangle(triangle: &Triangle, triangle_normal: &Vec3, point: &Vec3) -> (r:
    Vec3)
    requires
        triangle.vertex_0.bounded(SEG_END_MAX as int),
        triangle.vertex_1.bounded(SEG_END_MAX as int),
        triangle.vertex_2.bounded(SEG_END_MAX as int),
        triangle_normal.bounded(0x1_0000_0000int),
        point.bounded(SEG_POINT_MAX as int),
    ensures
        r@ == tri_closest_grid(triangle@, triangle_normal@, point@),
{
    let inside = tri_inside_test(triangle, triangle_normal, point);
    if inside {
        return *point;
    }
    let q1 = closest_point_on_line_grid(&triangle.vertex_0, &triangle.vertex_1, point);
    let q2 = closest_point_on_line_grid(&triangle.vertex_1, &triangle.vertex_2, point);
    let q3 = closest_point_on_line_grid(&triangle.vertex_2, &triangle.vertex_0, point);
    let d1 = dist2_to(point, &q1);
    let d2 = dist2_to(point, &q2);
    let d3 = dist2_to(point, &q3);
    let mut best = q1;
    let mut best_d = d1;
    if d2 < best_d {
        best = q2;
        best_d = d2;
    }
    if d3 < best_d {
        best = q3;
    }
    best
}

/// The three edge sign tests of `tri_inside`, evaluated exactly.
pub fn tri_inside_test(triangle: &Triangle, n: &Vec3, point: &Vec3) -> (r: bool)
    requires
        triangle.vertex_0.bounded(SEG_END_MAX as int),
        triangle.vertex_1.bounded(SEG_END_MAX as int),
        triangle.vertex_2.bounded(SEG_END_MAX as int),
        n.bounded(0x1_0000_0000int),
        point.bounded(SEG_POINT_MAX as int),
    ensures
        r == tri_inside(triangle@, n@, point@),
{
    let c0 = edge_sign(point, &triangle.vertex_0, &triangle.vertex_1, n);
    let c1 = edge_sign(point, &triangle.vertex_1, &triangle.vertex_2, n);
    let c2 = edge_sign(point, &triangle.vertex_2, &triangle.vertex_0, n);
    c0 <= 0 && c1 <= 0 && c2 <= 0
}

/// One edge sign test, evaluated exactly in wide arithmetic.
fn edge_sign(p: &Vec3, va: &Vec3, vb: &Vec3, n: &Vec3) -> (r: i128)
    requires
        p.bounded(SEG_POINT_MAX as int),
        va.bounded(SEG_END_MAX as int),
        vb.bounded(SEG_END_MAX as int),
        n.bounded(0x1_0000_0000int),
    ensures
        r as int == tri_edge_sign(p@, va@, vb@, n@),
{
    let pa = Wide3 {
        x: p.x as i128 - va.x as i128,
        y: p.y as i128 - va.y as i128,
        z: p.z as i128 - va.z as i128,
    };
    let e = Wide3 {
        x: vb.x as i128 - va.x as i128,
        y: vb.y as i128 - va.y as i128,
        z: vb.z as i128 - va.z as i128,
    };
    let c = pa.cross(e, Ghost(0x4000_0000_0000_8000int), Ghost(0x1_0000int));
    proof {
        crate::vec3::lemma_cross_bound(v3_sub(p@, va@), v3_sub(vb@, va@),
            0x4000_0000_0000_8000int, 0x1_0000int);
    }
    c.dot(n.wide(), Ghost(0x1_0000_0000_0000_0000_0000int), Ghost(0x1_0000_0000int))
}

/// Exact squared distance between two grid points.
pub fn grid_dist2(p: &Vec3, q: &Vec3) -> (r: i128)
    requires
        p.bounded(SEG_END_MAX as int),
        q.bounded(SEG_END_MAX as int),
    ensures
        r as int == v3_norm2(v3_sub(p@, q@)),
        r >= 0,
{
    let d = Wide3 {
        x: p.x as i128 - q.x as i128,
        y: p.y as i128 - q.y as i128,
        z: p.z as i128 - q.z as i128,
    };
    proof {
        lemma_dot_bound(v3_sub(p@, q@), v3_sub(p@, q@), 0x1_0000, 0x1_0000);
    }
    d.norm2(Ghost(0x1_0000int))
}

/// Exact squared distance between a (possibly far) point and a grid point.
fn dist2_to(p: &Vec3, q: &Vec3) -> (r: i128)
    requires
        p.bounded(SEG_POINT_MAX as int),
        q.bounded(SEG_END_MAX as int),
    ensures
        r as int == v3_norm2(v3_sub(p@, q@)),
        r >= 0,
{
    let d = Wide3 {
        x: p.x as i128 - q.x as i128,
        y: p.y as i128 - q.y as i128,
        z: p.z as i128 - q.z as i128,
    };
    d.norm2(Ghost(0x4000_0000_0000_8000int))
}

} // verus!

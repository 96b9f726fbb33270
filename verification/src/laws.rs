//! General properties of the collision queries, stated and proved over
//! the same models that the executable functions are verified against.

use vstd::prelude::*;
use crate::closest::{seg_closest, seg_den, seg_tnum};
use crate::intmath::{lemma_sqrt_floor, sqrt_floor};
use crate::ray::ray_sphere_model;
use crate::shapes::{cap_inner_a, cap_inner_b, CapsuleModel, RayModel, SphereModel, TriangleModel};
use crate::sphere::{sphere_capsule_model, sphere_sphere_model};
use crate::vec3::{lemma_norm2_nonneg, v3_add, v3_cross, v3_dot, v3_neg, v3_norm2, v3_scale,
    v3_sub, V3};

verus! {

/// Symmetry of the sphere-sphere test: swapping the two spheres never
/// changes whether they collide, nor the reported depth, and the two
/// contact normals are exact opposites.
pub proof fn lemma_sphere_sphere_symmetry(a: SphereModel, b: SphereModel)
    ensures
        sphere_sphere_model(a, b).collided == sphere_sphere_model(b, a).collided,
        sphere_sphere_model(a, b).time == sphere_sphere_model(b, a).time,
        sphere_sphere_model(a, b).normal.num == v3_neg(sphere_sphere_model(b, a).normal.num),
        sphere_sphere_model(a, b).normal.den == sphere_sphere_model(b, a).normal.den,
{
    assert(v3_norm2(v3_sub(a.center, b.center)) == v3_norm2(v3_sub(b.center, a.center)))
        by (nonlinear_arith);
    assert((a.radius + b.radius) * (a.radius + b.radius) == (b.radius + a.radius) * (b.radius
        + a.radius)) by (nonlinear_arith);
}

/// The segment closest point lies on the segment: its parameter is a
/// rational in `[0, 1]` over the positive common denominator, and the
/// point is exactly `a + t * (b - a)` at that parameter.
pub proof fn lemma_seg_closest_on_segment(a: V3, b: V3, p: V3)
    ensures
        0 < seg_den(a, b),
        0 <= seg_tnum(a, b, p) <= seg_den(a, b),
        seg_closest(a, b, p).den == seg_den(a, b),
        seg_closest(a, b, p).num == v3_add(
            v3_scale(a, seg_den(a, b)),
            v3_scale(v3_sub(b, a), seg_tnum(a, b, p)),
        ),
{
    lemma_norm2_nonneg(v3_sub(b, a));
}

/// Idempotence of the segment closest point: a query point already on
/// the segment (witnessed by a rational parameter `sn/sd` in `[0, 1]`
/// with `(p - a) * sd == (b - a) * sn`) comes back unchanged.
pub proof fn lemma_seg_closest_idempotent(a: V3, b: V3, p: V3, sn: int, sd: int)
    requires
        0 < sd,
        0 <= sn <= sd,
        v3_scale(v3_sub(p, a), sd) == v3_scale(v3_sub(b, a), sn),
    ensures
        seg_closest(a, b, p).num == v3_scale(p, seg_den(a, b)),
{
    let ab = v3_sub(b, a);
    let pa = v3_sub(p, a);
    let ab2 = v3_norm2(ab);
    let raw = v3_dot(pa, ab);
    lemma_norm2_nonneg(ab);
    if ab2 == 0 {
        assert(ab.x == 0 && ab.y == 0 && ab.z == 0) by (nonlinear_arith)
            requires
                ab.x * ab.x + ab.y * ab.y + ab.z * ab.z == 0,
        ;
        assert(pa.x == 0 && pa.y == 0 && pa.z == 0) by (nonlinear_arith)
            requires
                sd > 0,
                pa.x * sd == ab.x * sn,
                pa.y * sd == ab.y * sn,
                pa.z * sd == ab.z * sn,
                ab.x == 0 && ab.y == 0 && ab.z == 0,
        ;
    } else {
        assert(pa.x * ab.x * sd == ab.x * ab.x * sn) by (nonlinear_arith)
            requires
                pa.x * sd == ab.x * sn,
        ;
        assert(pa.y * ab.y * sd == ab.y * ab.y * sn) by (nonlinear_arith)
            requires
                pa.y * sd == ab.y * sn,
        ;
        assert(pa.z * ab.z * sd == ab.z * ab.z * sn) by (nonlinear_arith)
            requires
                pa.z * sd == ab.z * sn,
        ;
        assert(raw * sd == pa.x * ab.x * sd + pa.y * ab.y * sd + pa.z * ab.z * sd)
            by (nonlinear_arith)
            requires
                raw == pa.x * ab.x + pa.y * ab.y + pa.z * ab.z,
        ;
        assert(sn * ab2 == ab.x * ab.x * sn + ab.y * ab.y * sn + ab.z * ab.z * sn)
            by (nonlinear_arith)
            requires
                ab2 == ab.x * ab.x + ab.y * ab.y + ab.z * ab.z,
        ;
        assert(raw * sd == sn * ab2);
        assert(0 <= raw && raw <= ab2) by (nonlinear_arith)
            requires
                0 < sd,
                0 <= sn <= sd,
                0 <= ab2,
                raw * sd == sn * ab2,
        ;
        assert(ab.x * raw == pa.x * ab2) by (nonlinear_arith)
            requires
                0 < sd,
                pa.x * sd == ab.x * sn,
                raw * sd == sn * ab2,
        ;
        assert(ab.y * raw == pa.y * ab2) by (nonlinear_arith)
            requires
                0 < sd,
                pa.y * sd == ab.y * sn,
                raw * sd == sn * ab2,
        ;
        assert(ab.z * raw == pa.z * ab2) by (nonlinear_arith)
            requires
                0 < sd,
                pa.z * sd == ab.z * sn,
                raw * sd == sn * ab2,
        ;
        assert(seg_closest(a, b, p).num.x == a.x * ab2 + ab.x * raw);
        assert(a.x * ab2 + pa.x * ab2 == p.x * ab2) by (nonlinear_arith)
            requires
                pa.x == p.x - a.x,
        ;
        assert(a.y * ab2 + pa.y * ab2 == p.y * ab2) by (nonlinear_arith)
            requires
                pa.y == p.y - a.y,
        ;
        assert(a.z * ab2 + pa.z * ab2 == p.z * ab2) by (nonlinear_arith)
            requires
                pa.z == p.z - a.z,
        ;
    }
}

/// Round trip of the ray-sphere test: when the quadratic has a real root
/// and the direction is nonzero, the reported hit point (scaled by the
/// common denominator `a`) lies on or just inside the sphere's surface:
/// its squared distance to the scaled center is within `a * (2s + 1)` of
/// `a^2 r^2`, where `s` is the floor square root of the discriminant.
pub proof fn lemma_ray_sphere_round_trip(ray: RayModel, sp: SphereModel)
    requires
        v3_norm2(ray.dir) > 0,
        ({
            let co = v3_sub(ray.start, sp.center);
            let a = v3_norm2(ray.dir);
            let b = v3_dot(co, ray.dir);
            let c = v3_norm2(co) - sp.radius * sp.radius;
            b * b - a * c >= 0
        }),
    ensures
        ({
            let co = v3_sub(ray.start, sp.center);
            let a = v3_norm2(ray.dir);
            let b = v3_dot(co, ray.dir);
            let c = v3_norm2(co) - sp.radius * sp.radius;
            let disc = b * b - a * c;
            let s = sqrt_floor(disc);
            let m = ray_sphere_model(ray, sp);
            let pc = v3_sub(m.position.num, v3_scale(sp.center, a));
            v3_norm2(pc) <= a * a * (sp.radius * sp.radius) && v3_norm2(pc) > a * a * (sp.radius
                * sp.radius) - a * (2 * s + 1)
        }),
{
    let co = v3_sub(ray.start, sp.center);
    let a = v3_norm2(ray.dir);
    let b = v3_dot(co, ray.dir);
    let co2 = v3_norm2(co);
    let c = co2 - sp.radius * sp.radius;
    let disc = b * b - a * c;
    let s = sqrt_floor(disc);
    lemma_sqrt_floor(disc);
    let m = ray_sphere_model(ray, sp);
    let tn = -b - s;
    let pc = v3_sub(m.position.num, v3_scale(sp.center, a));
    assert((ray.start.x - sp.center.x) * a == ray.start.x * a - sp.center.x * a
        && (ray.start.y - sp.center.y) * a == ray.start.y * a - sp.center.y * a
        && (ray.start.z - sp.center.z) * a == ray.start.z * a - sp.center.z * a)
        by (nonlinear_arith);
    assert(pc == v3_add(v3_scale(co, a), v3_scale(ray.dir, tn)));
    let dx = ray.dir.x;
    let dy = ray.dir.y;
    let dz = ray.dir.z;
    lemma_scaled_binomial_square(pc.x, co.x, a, dx, tn);
    lemma_scaled_binomial_square(pc.y, co.y, a, dy, tn);
    lemma_scaled_binomial_square(pc.z, co.z, a, dz, tn);
    assert(co.x * co.x * (a * a) + co.y * co.y * (a * a) + co.z * co.z * (a * a) == (a * a) * co2)
        by (nonlinear_arith)
        requires
            co2 == co.x * co.x + co.y * co.y + co.z * co.z,
    ;
    assert(2 * (a * tn) * (co.x * dx) + 2 * (a * tn) * (co.y * dy) + 2 * (a * tn) * (co.z * dz)
        == 2 * (a * tn) * b) by (nonlinear_arith)
        requires
            b == co.x * dx + co.y * dy + co.z * dz,
    ;
    assert((tn * tn) * (dx * dx) + (tn * tn) * (dy * dy) + (tn * tn) * (dz * dz) == (tn * tn)
        * a) by (nonlinear_arith)
        requires
            a == dx * dx + dy * dy + dz * dz,
    ;
    let kk = a * co2 + 2 * tn * b + tn * tn;
    assert(v3_norm2(pc) == a * kk) by (nonlinear_arith)
        requires
            kk == a * co2 + 2 * tn * b + tn * tn,
            v3_norm2(pc) == (a * a) * co2 + 2 * (a * tn) * b + (tn * tn) * a,
    ;
    assert(kk == a * (sp.radius * sp.radius) - disc + s * s) by (nonlinear_arith)
        requires
            kk == a * co2 + 2 * tn * b + tn * tn,
            tn == -b - s,
            disc == b * b - a * (co2 - sp.radius * sp.radius),
    ;
    assert(a * kk <= a * (a * (sp.radius * sp.radius)) && a * kk > a * (a * (sp.radius
        * sp.radius)) - a * (2 * s + 1)) by (nonlinear_arith)
        requires
            a > 0,
            kk == a * (sp.radius * sp.radius) - disc + s * s,
            s * s <= disc,
            disc < (s + 1) * (s + 1),
    ;
    assert(a * (a * (sp.radius * sp.radius)) == a * a * (sp.radius * sp.radius))
        by (nonlinear_arith);
}

/// The square of a sum.
proof fn lemma_sq_sum(u: int, v: int)
    by (nonlinear_arith)
    ensures
        (u + v) * (u + v) == u * u + 2 * (u * v) + v * v,
{
}

/// Rearranged square of a product.
proof fn lemma_prod_sq(x: int, y: int)
    by (nonlinear_arith)
    ensures
        (x * y) * (x * y) == x * x * (y * y),
        (x * y) * (x * y) == (x * x) * (y * y),
{
}

/// Rearranged product of two products.
proof fn lemma_prod_swap(c: int, a: int, d: int, t: int)
    by (nonlinear_arith)
    ensures
        (c * a) * (d * t) == (a * t) * (c * d),
{
}

/// Commutation of two squares.
proof fn lemma_sq_comm(x: int, y: int)
    by (nonlinear_arith)
    ensures
        (x * x) * (y * y) == (y * y) * (x * x),
{
}

/// Doubling associates over a product.
proof fn lemma_two_assoc(x: int, y: int)
    by (nonlinear_arith)
    ensures
        2 * (x * y) == 2 * x * y,
{
}

/// Expansion of the square of a scaled binomial.
proof fn lemma_scaled_binomial_square(p: int, c: int, a: int, d: int, t: int)
    requires
        p == c * a + d * t,
    ensures
        p * p == c * c * (a * a) + 2 * (a * t) * (c * d) + (t * t) * (d * d),
{
    lemma_sq_sum(c * a, d * t);
    lemma_prod_sq(c, a);
    lemma_prod_sq(d, t);
    lemma_prod_swap(c, a, d, t);
    lemma_sq_comm(d, t);
    lemma_two_assoc(a * t, c * d);
    assert(2 * ((c * a) * (d * t)) == 2 * ((a * t) * (c * d)));
}

/// Degenerate capsules behave as spheres: a capsule whose two ends
/// coincide gives, against any sphere, exactly the sphere-sphere result
/// for a sphere of the capsule's radius at that point.
pub proof fn lemma_degenerate_capsule_is_sphere(s: SphereModel, c: CapsuleModel)
    requires
        c.base == c.tip,
    ensures
        sphere_capsule_model(s, c) == sphere_sphere_model(
            s,
            SphereModel { center: c.base, radius: c.radius },
        ),
{
    let u = v3_sub(c.tip, c.base);
    assert(v3_norm2(u) == 0) by (nonlinear_arith)
        requires
            u.x == 0 && u.y == 0 && u.z == 0,
    ;
    assert(cap_inner_a(c) == c.base);
    assert(cap_inner_b(c) == c.base);
    let q = crate::closest::seg_closest_grid(c.base, c.base, s.center);
    assert(seg_den(c.base, c.base) == 1) by {
        assert(v3_norm2(v3_sub(c.base, c.base)) == 0) by (nonlinear_arith);
    }
    let tz = seg_tnum(c.base, c.base, s.center);
    let dn = seg_den(c.base, c.base);
    assert(tz == 0);
    assert(dn == 1);
    let zb = v3_sub(c.base, c.base);
    assert(zb.x * tz == 0 && zb.y * tz == 0 && zb.z * tz == 0) by (nonlinear_arith)
        requires
            tz == 0,
    ;
    assert(c.base.x * dn == c.base.x && c.base.y * dn == c.base.y && c.base.z * dn == c.base.z)
        by (nonlinear_arith)
        requires
            dn == 1,
    ;
    assert(seg_closest(c.base, c.base, s.center).num == c.base);
    vstd::arithmetic::div_mod::lemma_div_basics_2(c.base.x);
    vstd::arithmetic::div_mod::lemma_div_basics_2(c.base.y);
    vstd::arithmetic::div_mod::lemma_div_basics_2(c.base.z);
    assert(q == c.base);
}

/// A scalar triple product with a repeated first factor vanishes.
proof fn lemma_triple_repeat_first(ax: int, ay: int, az: int, bx: int, by: int, bz: int)
    by (nonlinear_arith)
    ensures
        ax * (ay * bz - az * by) + ay * (az * bx - ax * bz) + az * (ax * by - ay * bx) == 0,
{
}

/// A scalar triple product with the outer factor repeated inside
/// vanishes.
proof fn lemma_triple_repeat_last(ax: int, ay: int, az: int, bx: int, by: int, bz: int)
    by (nonlinear_arith)
    ensures
        ax * (by * az - bz * ay) + ay * (bz * ax - bx * az) + az * (bx * ay - by * ax) == 0,
{
}

/// Swapping the first two factors of a scalar triple product flips its
/// sign.
proof fn lemma_triple_swap(ex: int, ey: int, ez: int, tx: int, ty: int, tz: int, fx: int,
    fy: int, fz: int)
    ensures
        ex * (ty * fz - tz * fy) + ey * (tz * fx - tx * fz) + ez * (tx * fy - ty * fx) == -(tx
            * (ey * fz - ez * fy) + ty * (ez * fx - ex * fz) + tz * (ex * fy - ey * fx)),
{
    broadcast use vstd::arithmetic::mul::group_mul_is_commutative_and_distributive;

    assert(ex * (ty * fz - tz * fy) == ex * (ty * fz) - ex * (tz * fy));
    assert(ey * (tz * fx - tx * fz) == ey * (tz * fx) - ey * (tx * fz));
    assert(ez * (tx * fy - ty * fx) == ez * (tx * fy) - ez * (ty * fx));
    assert(tx * (ey * fz - ez * fy) == tx * (ey * fz) - tx * (ez * fy));
    assert(ty * (ez * fx - ex * fz) == ty * (ez * fx) - ty * (ex * fz));
    assert(tz * (ex * fy - ey * fx) == tz * (ex * fy) - tz * (ey * fx));
    assert(ex * (ty * fz) == ty * (ex * fz)) by (nonlinear_arith);
    assert(ex * (tz * fy) == tz * (ex * fy)) by (nonlinear_arith);
    assert(ey * (tz * fx) == tz * (ey * fx)) by (nonlinear_arith);
    assert(ey * (tx * fz) == tx * (ey * fz)) by (nonlinear_arith);
    assert(ez * (tx * fy) == tx * (ez * fy)) by (nonlinear_arith);
    assert(ez * (ty * fx) == ty * (ez * fx)) by (nonlinear_arith);
}

/// Cyclic permutation keeps a scalar triple product.
proof fn lemma_triple_cyclic(fx: int, fy: int, fz: int, tx: int, ty: int, tz: int, ex: int,
    ey: int, ez: int)
    ensures
        fx * (ty * ez - tz * ey) + fy * (tz * ex - tx * ez) + fz * (tx * ey - ty * ex) == tx
            * (ey * fz - ez * fy) + ty * (ez * fx - ex * fz) + tz * (ex * fy - ey * fx),
{
    broadcast use vstd::arithmetic::mul::group_mul_is_commutative_and_distributive;

    assert(fx * (ty * ez - tz * ey) == fx * (ty * ez) - fx * (tz * ey));
    assert(fy * (tz * ex - tx * ez) == fy * (tz * ex) - fy * (tx * ez));
    assert(fz * (tx * ey - ty * ex) == fz * (tx * ey) - fz * (ty * ex));
    assert(tx * (ey * fz - ez * fy) == tx * (ey * fz) - tx * (ez * fy));
    assert(ty * (ez * fx - ex * fz) == ty * (ez * fx) - ty * (ex * fz));
    assert(tz * (ex * fy - ey * fx) == tz * (ex * fy) - tz * (ey * fx));
    assert(fx * (ty * ez) == ty * (ez * fx)) by (nonlinear_arith);
    assert(fx * (tz * ey) == tz * (ey * fx)) by (nonlinear_arith);
    assert(fy * (tz * ex) == tz * (ex * fy)) by (nonlinear_arith);
    assert(fy * (tx * ez) == tx * (ez * fy)) by (nonlinear_arith);
    assert(fz * (tx * ey) == tx * (ey * fz)) by (nonlinear_arith);
    assert(fz * (ty * ex) == ty * (ex * fz)) by (nonlinear_arith);
}

/// The cross product of a vector with itself is zero.
proof fn lemma_cross_self_zero(a: V3)
    ensures
        v3_cross(a, a) == (V3 { x: 0, y: 0, z: 0 }),
{
    broadcast use vstd::arithmetic::mul::group_mul_is_commutative_and_distributive;

    assert(a.y * a.z == a.z * a.y);
    assert(a.z * a.x == a.x * a.z);
    assert(a.x * a.y == a.y * a.x);
}

/// The direction that aims a ray from `s` at the plane point of the
/// triangle with barycentric numerators `(un, vn)` over `den`, scaled by
/// `den` so that it stays on the grid.
pub open spec fn aimed_dir(t: TriangleModel, s: V3, un: int, vn: int, den: int) -> V3 {
    V3 {
        x: (t.v0.x - s.x) * den + un * (t.v1.x - t.v0.x) + vn * (t.v2.x - t.v0.x),
        y: (t.v0.y - s.y) * den + un * (t.v1.y - t.v0.y) + vn * (t.v2.y - t.v0.y),
        z: (t.v0.z - s.z) * den + un * (t.v1.z - t.v0.z) + vn * (t.v2.z - t.v0.z),
    }
}

/// Containment of the ray-triangle test: a ray aimed from a start point
/// off the triangle's plane at the plane point with barycentric
/// coordinates `(un/den, vn/den)` reports a hit exactly when both
/// coordinates are nonnegative and their sum is at most one.
pub proof fn lemma_ray_triangle_barycentric(t: TriangleModel, s: V3, un: int, vn: int, den: int)
    requires
        den > 0,
        v3_dot(v3_sub(s, t.v0), v3_cross(v3_sub(t.v1, t.v0), v3_sub(t.v2, t.v0))) != 0,
    ensures
        crate::ray::ray_triangle_model(
            RayModel { start: s, dir: aimed_dir(t, s, un, vn, den) },
            t,
        ).collided <==> (0 <= un && un <= den && 0 <= vn && un + vn <= den),
{
    let e1 = v3_sub(t.v1, t.v0);
    let e2 = v3_sub(t.v2, t.v0);
    let tv = v3_sub(s, t.v0);
    let d = aimed_dir(t, s, un, vn, den);
    let ss = v3_dot(tv, v3_cross(e1, e2));
    // the aimed direction decomposed over tv, e1, e2
    assert(d.x == tv.x * (-den) + e1.x * un + e2.x * vn) by (nonlinear_arith)
        requires
            d.x == (t.v0.x - s.x) * den + un * (t.v1.x - t.v0.x) + vn * (t.v2.x - t.v0.x),
            tv.x == s.x - t.v0.x,
            e1.x == t.v1.x - t.v0.x,
            e2.x == t.v2.x - t.v0.x,
    ;
    assert(d.y == tv.y * (-den) + e1.y * un + e2.y * vn) by (nonlinear_arith)
        requires
            d.y == (t.v0.y - s.y) * den + un * (t.v1.y - t.v0.y) + vn * (t.v2.y - t.v0.y),
            tv.y == s.y - t.v0.y,
            e1.y == t.v1.y - t.v0.y,
            e2.y == t.v2.y - t.v0.y,
    ;
    assert(d.z == tv.z * (-den) + e1.z * un + e2.z * vn) by (nonlinear_arith)
        requires
            d.z == (t.v0.z - s.z) * den + un * (t.v1.z - t.v0.z) + vn * (t.v2.z - t.v0.z),
            tv.z == s.z - t.v0.z,
            e1.z == t.v1.z - t.v0.z,
            e2.z == t.v2.z - t.v0.z,
    ;
    let pvec = v3_cross(d, e2);
    let det = v3_dot(e1, pvec);
    lemma_trilinear_first(e1, tv, e1, e2, e2, -den, un, vn);
    assert(det == (-den) * v3_dot(e1, v3_cross(tv, e2)) + un * v3_dot(e1, v3_cross(e1, e2)) + vn
        * v3_dot(e1, v3_cross(e2, e2)));
    lemma_triple_repeat_last(e1.x, e1.y, e1.z, tv.x, tv.y, tv.z);
    assert(v3_dot(e1, v3_cross(e1, e2)) == 0) by {
        lemma_triple_repeat_first(e1.x, e1.y, e1.z, e2.x, e2.y, e2.z);
    }
    assert(v3_dot(e1, v3_cross(e2, e2)) == 0) by {
        lemma_cross_self_zero(e2);
        assert(v3_cross(e2, e2).x == 0);
        assert(v3_cross(e2, e2).y == 0);
        assert(v3_cross(e2, e2).z == 0);
        assert(e1.x * v3_cross(e2, e2).x == 0) by (nonlinear_arith)
            requires
                v3_cross(e2, e2).x == 0,
        ;
        assert(e1.y * v3_cross(e2, e2).y == 0) by (nonlinear_arith)
            requires
                v3_cross(e2, e2).y == 0,
        ;
        assert(e1.z * v3_cross(e2, e2).z == 0) by (nonlinear_arith)
            requires
                v3_cross(e2, e2).z == 0,
        ;
    }
    assert(v3_dot(e1, v3_cross(tv, e2)) == -ss) by {
        lemma_triple_swap(e1.x, e1.y, e1.z, tv.x, tv.y, tv.z, e2.x, e2.y, e2.z);
    }
    assert(det == den * ss) by (nonlinear_arith)
        requires
            det == (-den) * (-ss) + un * 0 + vn * 0,
    ;
    let unm = v3_dot(tv, pvec);
    lemma_trilinear_first(tv, tv, e1, e2, e2, -den, un, vn);
    assert(v3_dot(tv, v3_cross(tv, e2)) == 0) by {
        lemma_triple_repeat_first(tv.x, tv.y, tv.z, e2.x, e2.y, e2.z);
    }
    assert(v3_dot(tv, v3_cross(e2, e2)) == 0) by {
        lemma_cross_self_zero(e2);
        assert(tv.x * v3_cross(e2, e2).x == 0) by (nonlinear_arith)
            requires
                v3_cross(e2, e2).x == 0,
        ;
        assert(tv.y * v3_cross(e2, e2).y == 0) by (nonlinear_arith)
            requires
                v3_cross(e2, e2).y == 0,
        ;
        assert(tv.z * v3_cross(e2, e2).z == 0) by (nonlinear_arith)
            requires
                v3_cross(e2, e2).z == 0,
        ;
    }
    assert(unm == un * ss) by (nonlinear_arith)
        requires
            unm == (-den) * 0 + un * ss + vn * 0,
    ;
    let qvec = v3_cross(tv, e1);
    let vnm = v3_dot(d, qvec);
    lemma_dot_linear_left(qvec, tv, e1, e2, -den, un, vn, d);
    assert(v3_dot(tv, qvec) == 0) by {
        lemma_triple_repeat_first(tv.x, tv.y, tv.z, e1.x, e1.y, e1.z);
    }
    assert(v3_dot(e1, qvec) == 0) by {
        lemma_triple_repeat_last(e1.x, e1.y, e1.z, tv.x, tv.y, tv.z);
    }
    assert(v3_dot(e2, qvec) == ss) by {
        lemma_triple_cyclic(e2.x, e2.y, e2.z, tv.x, tv.y, tv.z, e1.x, e1.y, e1.z);
    }
    assert(vnm == vn * ss) by (nonlinear_arith)
        requires
            vnm == (-den) * 0 + un * 0 + vn * ss,
    ;
    assert(det != 0) by (nonlinear_arith)
        requires
            det == den * ss,
            den > 0,
            ss != 0,
    ;
    if ss > 0 {
        assert(det > 0) by (nonlinear_arith)
            requires
                det == den * ss,
                den > 0,
                ss > 0,
        ;
        lemma_scaled_order(un, den, ss);
        lemma_scaled_order(vn, den, ss);
        lemma_scaled_order(un + vn, den, ss);
        assert((un + vn) * ss == un * ss + vn * ss) by (nonlinear_arith);
    } else {
        assert(det < 0) by (nonlinear_arith)
            requires
                det == den * ss,
                den > 0,
                ss < 0,
        ;
        lemma_scaled_order_neg(un, den, ss);
        lemma_scaled_order_neg(vn, den, ss);
        lemma_scaled_order_neg(un + vn, den, ss);
        assert((un + vn) * ss == un * ss + vn * ss) by (nonlinear_arith);
    }
}

/// Scaling by a positive factor preserves order against 0 and a bound.
proof fn lemma_scaled_order(x: int, k: int, p: int)
    by (nonlinear_arith)
    requires
        p > 0,
    ensures
        (x * p < 0) == (x < 0),
        (x * p > k * p) == (x > k),
{
}

/// Scaling by a negative factor and negating preserves order.
proof fn lemma_scaled_order_neg(x: int, k: int, p: int)
    by (nonlinear_arith)
    requires
        p < 0,
    ensures
        (-(x * p) < 0) == (x < 0),
        (-(x * p) > -(k * p)) == (x > k),
{
}

/// Linearity of the trilinear form `x . ((ka*a + kb*b + kc*c) x y)`.
proof fn lemma_trilinear_first(x: V3, a: V3, b: V3, c: V3, y: V3, ka: int, kb: int, kc: int)
    requires
        true,
    ensures
        ({
            let d = V3 {
                x: a.x * ka + b.x * kb + c.x * kc,
                y: a.y * ka + b.y * kb + c.y * kc,
                z: a.z * ka + b.z * kb + c.z * kc,
            };
            v3_dot(x, v3_cross(d, y)) == ka * v3_dot(x, v3_cross(a, y)) + kb * v3_dot(
                x,
                v3_cross(b, y),
            ) + kc * v3_dot(x, v3_cross(c, y))
        }),
{
    let d = V3 {
        x: a.x * ka + b.x * kb + c.x * kc,
        y: a.y * ka + b.y * kb + c.y * kc,
        z: a.z * ka + b.z * kb + c.z * kc,
    };
    broadcast use vstd::arithmetic::mul::group_mul_is_commutative_and_distributive;

    assert(v3_cross(d, y).x == ka * v3_cross(a, y).x + kb * v3_cross(b, y).x + kc * v3_cross(
        c,
        y,
    ).x) by {
        assert(d.y * y.z == (a.y * ka) * y.z + (b.y * kb) * y.z + (c.y * kc) * y.z);
        assert(d.z * y.y == (a.z * ka) * y.y + (b.z * kb) * y.y + (c.z * kc) * y.y);
        assert((a.y * ka) * y.z == ka * (a.y * y.z) && (a.z * ka) * y.y == ka * (a.z * y.y)) by (nonlinear_arith);
        assert((b.y * kb) * y.z == kb * (b.y * y.z) && (b.z * kb) * y.y == kb * (b.z * y.y)) by (nonlinear_arith);
        assert((c.y * kc) * y.z == kc * (c.y * y.z) && (c.z * kc) * y.y == kc * (c.z * y.y)) by (nonlinear_arith);
        assert(ka * (a.y * y.z) - ka * (a.z * y.y) == ka * (a.y * y.z - a.z * y.y));
        assert(kb * (b.y * y.z) - kb * (b.z * y.y) == kb * (b.y * y.z - b.z * y.y));
        assert(kc * (c.y * y.z) - kc * (c.z * y.y) == kc * (c.y * y.z - c.z * y.y));
    }
    assert(v3_cross(d, y).y == ka * v3_cross(a, y).y + kb * v3_cross(b, y).y + kc * v3_cross(
        c,
        y,
    ).y) by {
        assert(d.z * y.x == (a.z * ka) * y.x + (b.z * kb) * y.x + (c.z * kc) * y.x);
        assert(d.x * y.z == (a.x * ka) * y.z + (b.x * kb) * y.z + (c.x * kc) * y.z);
        assert((a.z * ka) * y.x == ka * (a.z * y.x) && (a.x * ka) * y.z == ka * (a.x * y.z)) by (nonlinear_arith);
        assert((b.z * kb) * y.x == kb * (b.z * y.x) && (b.x * kb) * y.z == kb * (b.x * y.z)) by (nonlinear_arith);
        assert((c.z * kc) * y.x == kc * (c.z * y.x) && (c.x * kc) * y.z == kc * (c.x * y.z)) by (nonlinear_arith);
        assert(ka * (a.z * y.x) - ka * (a.x * y.z) == ka * (a.z * y.x - a.x * y.z));
        assert(kb * (b.z * y.x) - kb * (b.x * y.z) == kb * (b.z * y.x - b.x * y.z));
        assert(kc * (c.z * y.x) - kc * (c.x * y.z) == kc * (c.z * y.x - c.x * y.z));
    }
    assert(v3_cross(d, y).z == ka * v3_cross(a, y).z + kb * v3_cross(b, y).z + kc * v3_cross(
        c,
        y,
    ).z) by {
        assert(d.x * y.y == (a.x * ka) * y.y + (b.x * kb) * y.y + (c.x * kc) * y.y);
        assert(d.y * y.x == (a.y * ka) * y.x + (b.y * kb) * y.x + (c.y * kc) * y.x);
        assert((a.x * ka) * y.y == ka * (a.x * y.y) && (a.y * ka) * y.x == ka * (a.y * y.x)) by (nonlinear_arith);
        assert((b.x * kb) * y.y == kb * (b.x * y.y) && (b.y * kb) * y.x == kb * (b.y * y.x)) by (nonlinear_arith);
        assert((c.x * kc) * y.y == kc * (c.x * y.y) && (c.y * kc) * y.x == kc * (c.y * y.x)) by (nonlinear_arith);
        assert(ka * (a.x * y.y) - ka * (a.y * y.x) == ka * (a.x * y.y - a.y * y.x));
        assert(kb * (b.x * y.y) - kb * (b.y * y.x) == kb * (b.x * y.y - b.y * y.x));
        assert(kc * (c.x * y.y) - kc * (c.y * y.x) == kc * (c.x * y.y - c.y * y.x));
    }
    lemma_dot_linear_right(x, v3_cross(a, y), v3_cross(b, y), v3_cross(c, y), ka, kb, kc,
        v3_cross(d, y));
}

/// Linearity of the dot product in its second argument.
proof fn lemma_dot_linear_right(x: V3, a: V3, b: V3, c: V3, ka: int, kb: int, kc: int, d: V3)
    requires
        d.x == ka * a.x + kb * b.x + kc * c.x,
        d.y == ka * a.y + kb * b.y + kc * c.y,
        d.z == ka * a.z + kb * b.z + kc * c.z,
    ensures
        v3_dot(x, d) == ka * v3_dot(x, a) + kb * v3_dot(x, b) + kc * v3_dot(x, c),
{
    broadcast use vstd::arithmetic::mul::group_mul_is_commutative_and_distributive;

    assert(x.x * d.x == ka * (x.x * a.x) + kb * (x.x * b.x) + kc * (x.x * c.x)) by {
        assert(x.x * (ka * a.x) == ka * (x.x * a.x)) by (nonlinear_arith);
        assert(x.x * (kb * b.x) == kb * (x.x * b.x)) by (nonlinear_arith);
        assert(x.x * (kc * c.x) == kc * (x.x * c.x)) by (nonlinear_arith);
    }
    assert(x.y * d.y == ka * (x.y * a.y) + kb * (x.y * b.y) + kc * (x.y * c.y)) by {
        assert(x.y * (ka * a.y) == ka * (x.y * a.y)) by (nonlinear_arith);
        assert(x.y * (kb * b.y) == kb * (x.y * b.y)) by (nonlinear_arith);
        assert(x.y * (kc * c.y) == kc * (x.y * c.y)) by (nonlinear_arith);
    }
    assert(x.z * d.z == ka * (x.z * a.z) + kb * (x.z * b.z) + kc * (x.z * c.z)) by {
        assert(x.z * (ka * a.z) == ka * (x.z * a.z)) by (nonlinear_arith);
        assert(x.z * (kb * b.z) == kb * (x.z * b.z)) by (nonlinear_arith);
        assert(x.z * (kc * c.z) == kc * (x.z * c.z)) by (nonlinear_arith);
    }
    assert(ka * v3_dot(x, a) == ka * (x.x * a.x) + ka * (x.y * a.y) + ka * (x.z * a.z));
    assert(kb * v3_dot(x, b) == kb * (x.x * b.x) + kb * (x.y * b.y) + kb * (x.z * b.z));
    assert(kc * v3_dot(x, c) == kc * (x.x * c.x) + kc * (x.y * c.y) + kc * (x.z * c.z));
}

/// Linearity of the dot product in its first argument, for a decomposed
/// vector.
proof fn lemma_dot_linear_left(q: V3, a: V3, b: V3, c: V3, ka: int, kb: int, kc: int, d: V3)
    requires
        d.x == a.x * ka + b.x * kb + c.x * kc,
        d.y == a.y * ka + b.y * kb + c.y * kc,
        d.z == a.z * ka + b.z * kb + c.z * kc,
    ensures
        v3_dot(d, q) == ka * v3_dot(a, q) + kb * v3_dot(b, q) + kc * v3_dot(c, q),
{
    broadcast use vstd::arithmetic::mul::group_mul_is_commutative_and_distributive;

    assert(d.x * q.x == ka * (a.x * q.x) + kb * (b.x * q.x) + kc * (c.x * q.x)) by {
        assert((a.x * ka) * q.x == ka * (a.x * q.x)) by (nonlinear_arith);
        assert((b.x * kb) * q.x == kb * (b.x * q.x)) by (nonlinear_arith);
        assert((c.x * kc) * q.x == kc * (c.x * q.x)) by (nonlinear_arith);
    }
    assert(d.y * q.y == ka * (a.y * q.y) + kb * (b.y * q.y) + kc * (c.y * q.y)) by {
        assert((a.y * ka) * q.y == ka * (a.y * q.y)) by (nonlinear_arith);
        assert((b.y * kb) * q.y == kb * (b.y * q.y)) by (nonlinear_arith);
        assert((c.y * kc) * q.y == kc * (c.y * q.y)) by (nonlinear_arith);
    }
    assert(d.z * q.z == ka * (a.z * q.z) + kb * (b.z * q.z) + kc * (c.z * q.z)) by {
        assert((a.z * ka) * q.z == ka * (a.z * q.z)) by (nonlinear_arith);
        assert((b.z * kb) * q.z == kb * (b.z * q.z)) by (nonlinear_arith);
        assert((c.z * kc) * q.z == kc * (c.z * q.z)) by (nonlinear_arith);
    }
    assert(ka * v3_dot(a, q) == ka * (a.x * q.x) + ka * (a.y * q.y) + ka * (a.z * q.z));
    assert(kb * v3_dot(b, q) == kb * (b.x * q.x) + kb * (b.y * q.y) + kb * (b.z * q.z));
    assert(kc * v3_dot(c, q) == kc * (c.x * q.x) + kc * (c.y * q.y) + kc * (c.z * q.z));
}

} // verus!

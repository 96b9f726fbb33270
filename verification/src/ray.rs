//! Ray queries: sphere, cylinder, capsule, triangle, and the offset-plane
//! face test used by the swept queries.
//!
//! Each query's contract pins the result down to a closed formula over the
//! inputs: quadratics are solved with the integer floor square root, the
//! parametric time is an exact rational, and every acceptance test
//! (discriminant sign, axial clip, barycentric containment) is exact.

use vstd::prelude::*;
use crate::frac::{Frac, FracVec, FR, FV3};
use crate::intmath::{isqrt, sqrt_floor};
use crate::packet::{pm_better, pm_miss, CollisionPacket, PacketModel};
use crate::shapes::{cap_inner_a, cap_inner_b, Capsule, CapsuleModel, Ray, RayModel, Sphere, SphereModel,
    Triangle, TriangleModel};
use crate::vec3::{lemma_dot_bound, lemma_mul_bound, lemma_norm2_nonneg, v3_add, v3_cross, v3_dot,
    v3_norm2, v3_scale, v3_sub, Vec3, V3, Wide3};

verus! {

/// Result of casting a ray at a sphere: the smaller root of
/// `|start + t*dir - center|^2 = radius^2`, with the square root taken as
/// the integer floor square root of the discriminant.  A zero direction or
/// a negative discriminant reports no contact.  `collided` demands a
/// strictly positive time; the packet still carries the computed time when
/// it is not.  The normal points from the sphere's center to the hit point
/// and is not normalized.
pub open spec fn ray_sphere_model(ray: RayModel, s: SphereModel) -> PacketModel {
    let co = v3_sub(ray.start, s.center);
    let a = v3_norm2(ray.dir);
    let b = v3_dot(co, ray.dir);
    let c = v3_norm2(co) - s.radius * s.radius;
    let disc = b * b - a * c;
    if a == 0 || disc < 0 {
        pm_miss()
    } else {
        let tn = -b - sqrt_floor(disc);
        PacketModel {
            collided: tn > 0,
            position: FV3 { num: v3_add(v3_scale(ray.start, a), v3_scale(ray.dir, tn)), den: a },
            normal: FV3 { num: v3_add(v3_scale(co, a), v3_scale(ray.dir, tn)), den: a },
            time: FR { num: tn, den: a },
        }
    }
}

/// Result of casting a ray at a triangle: the scalar-triple-product form
/// of the barycentric containment test, decided exactly.  A ray parallel
/// to the triangle's plane (zero determinant) reports no contact; a hit
/// anywhere on the ray, at negative times too, reports `collided` (the
/// swept queries apply their own time window).  The normal is the
/// triangle's unnormalized face normal.
pub open spec fn ray_triangle_model(ray: RayModel, t: TriangleModel) -> PacketModel {
    let e1 = v3_sub(t.v1, t.v0);
    let e2 = v3_sub(t.v2, t.v0);
    let pvec = v3_cross(ray.dir, e2);
    let det = v3_dot(e1, pvec);
    if det == 0 {
        pm_miss()
    } else {
        let ad = if det > 0 {
            det
        } else {
            -det
        };
        let tvec = v3_sub(ray.start, t.v0);
        let un = if det > 0 {
            v3_dot(tvec, pvec)
        } else {
            -v3_dot(tvec, pvec)
        };
        let qvec = v3_cross(tvec, e1);
        let vn = if det > 0 {
            v3_dot(ray.dir, qvec)
        } else {
            -v3_dot(ray.dir, qvec)
        };
        if un < 0 || un > ad || vn < 0 || un + vn > ad {
            pm_miss()
        } else {
            let tn = if det > 0 {
                v3_dot(e2, qvec)
            } else {
                -v3_dot(e2, qvec)
            };
            PacketModel {
                collided: true,
                position: FV3 {
                    num: v3_add(v3_scale(ray.start, ad), v3_scale(ray.dir, tn)),
                    den: ad,
                },
                normal: FV3 { num: v3_cross(e1, e2), den: 1 },
                time: FR { num: tn, den: ad },
            }
        }
    }
}

/// Result of casting a ray at the cylinder around the segment
/// `[base, tip]`: the smaller root of the infinite-cylinder quadratic
/// (multiplied through by the squared axis length so that it is exact),
/// clipped to the axial span of the segment.  A ray parallel to the axis
/// or a degenerate axis reports no contact.  The normal is the radial
/// direction at the hit point, unnormalized.
pub open spec fn ray_cylinder_model(ray: RayModel, base: V3, tip: V3, radius: int) -> PacketModel {
    let u = v3_sub(tip, base);
    let w = v3_sub(ray.start, base);
    let d = ray.dir;
    let u2 = v3_norm2(u);
    let aq = u2 * v3_norm2(d) - v3_dot(u, d) * v3_dot(u, d);
    let bq = u2 * v3_dot(w, d) - v3_dot(w, u) * v3_dot(u, d);
    let cq = u2 * v3_norm2(w) - v3_dot(w, u) * v3_dot(w, u) - radius * radius * u2;
    let disc = bq * bq - aq * cq;
    if aq <= 0 || disc < 0 {
        pm_miss()
    } else {
        let tn = -bq - sqrt_floor(disc);
        let td = aq;
        let axial = v3_dot(w, u) * td + tn * v3_dot(u, d);
        if axial < 0 || axial > u2 * td {
            pm_miss()
        } else {
            let wt = v3_add(v3_scale(w, td), v3_scale(d, tn));
            PacketModel {
                collided: tn > 0,
                position: FV3 { num: v3_add(v3_scale(ray.start, td), v3_scale(d, tn)), den: td },
                normal: FV3 {
                    num: v3_sub(v3_scale(wt, u2), v3_scale(u, v3_dot(wt, u))),
                    den: td * u2,
                },
                time: FR { num: tn, den: td },
            }
        }
    }
}

impl Ray {
    /// Cast this ray at a sphere.  See `ray_sphere_model`.
    pub fn vs_sphere(&self, sphere: &Sphere) -> (r: CollisionPacket)
        requires
            self.start.bounded(0x8000),
            self.direction.bounded(0x2000),
            sphere.center.bounded(0x8000),
            0 < sphere.radius <= 0x2000,
        ensures
            r@ == ray_sphere_model(self@, sphere@),
            r.valid(),
    {
        let co = Wide3 {
            x: self.start.x as i128 - sphere.center.x as i128,
            y: self.start.y as i128 - sphere.center.y as i128,
            z: self.start.z as i128 - sphere.center.z as i128,
        };
        let d = self.direction.wide();
        let a = d.norm2(Ghost(0x2000int));
        let b = co.dot(d, Ghost(0x1_0000int), Ghost(0x2000int));
        let co2 = co.norm2(Ghost(0x1_0000int));
        proof {
            lemma_dot_bound(self@.dir, self@.dir, 0x2000, 0x2000);
            lemma_dot_bound(v3_sub(self@.start, sphere@.center), self@.dir, 0x1_0000, 0x2000);
            lemma_dot_bound(v3_sub(self@.start, sphere@.center),
                v3_sub(self@.start, sphere@.center), 0x1_0000, 0x1_0000);
            lemma_mul_bound(sphere@.radius, sphere@.radius, 0x2000int, 0x2000int);
        }
        let c = co2 - (sphere.radius as i128) * (sphere.radius as i128);
        proof {
            lemma_mul_bound(b as int, b as int, 0x6000_0000int, 0x6000_0000int);
            lemma_mul_bound(a as int, c as int, 0xC00_0000int, 0x3_0400_0000int);
        }
        let disc = b * b - a * c;
        if a == 0 || disc < 0 {
            return CollisionPacket::miss();
        }
        let su = isqrt(disc as u128);
        proof {
            assert((su as int) * (su as int) <= disc as int);
            assert(su as int <= 0x1_8000_0000) by (nonlinear_arith)
                requires
                    0 <= su as int,
                    (su as int) * (su as int) <= disc as int,
                    disc as int <= 0x5000_0000_0000_0000,
            ;
        }
        let s = su as i128;
        let tn = -b - s;
        proof {
            lemma_mul_bound(self@.start.x, a as int, 0x8000int, 0xC00_0000int);
            lemma_mul_bound(self@.start.y, a as int, 0x8000int, 0xC00_0000int);
            lemma_mul_bound(self@.start.z, a as int, 0x8000int, 0xC00_0000int);
            lemma_mul_bound(co@.x, a as int, 0x1_0000int, 0xC00_0000int);
            lemma_mul_bound(co@.y, a as int, 0x1_0000int, 0xC00_0000int);
            lemma_mul_bound(co@.z, a as int, 0x1_0000int, 0xC00_0000int);
            lemma_mul_bound(self@.dir.x, tn as int, 0x2000int, 0x2_0000_0000int);
            lemma_mul_bound(self@.dir.y, tn as int, 0x2000int, 0x2_0000_0000int);
            lemma_mul_bound(self@.dir.z, tn as int, 0x2000int, 0x2_0000_0000int);
        }
        CollisionPacket {
            collided: tn > 0,
            position: FracVec {
                x: self.start.x as i128 * a + d.x * tn,
                y: self.start.y as i128 * a + d.y * tn,
                z: self.start.z as i128 * a + d.z * tn,
                den: a,
            },
            normal: FracVec {
                x: co.x * a + d.x * tn,
                y: co.y * a + d.y * tn,
                z: co.z * a + d.z * tn,
                den: a,
            },
            penetration_or_time: Frac { num: tn, den: a },
        }
    }

    /// Cast this ray at a triangle.  See `ray_triangle_model`.
    pub fn vs_triangle(&self, triangle: &Triangle) -> (r: CollisionPacket)
        requires
            self.start.bounded(0x4000),
            self.direction.bounded(0x2000),
            triangle.vertex_0.bounded(0x4000),
            triangle.vertex_1.bounded(0x4000),
            triangle.vertex_2.bounded(0x4000),
        ensures
            r@ == ray_triangle_model(self@, triangle@),
            r.valid(),
    {
        let v0 = triangle.vertex_0.wide();
        let e1 = triangle.vertex_1.wide().sub(v0);
        let e2 = triangle.vertex_2.wide().sub(v0);
        let d = self.direction.wide();
        let pvec = d.cross(e2, Ghost(0x2000int), Ghost(0x8000int));
        proof {
            crate::vec3::lemma_cross_bound(self@.dir, v3_sub(triangle@.v2, triangle@.v0),
                0x2000, 0x8000);
        }
        let det = e1.dot(pvec, Ghost(0x8000int), Ghost(0x2000_0000int));
        if det == 0 {
            return CollisionPacket::miss();
        }
        let tvec = self.start.wide().sub(v0);
        let un0 = tvec.dot(pvec, Ghost(0x8000int), Ghost(0x2000_0000int));
        let qvec = tvec.cross(e1, Ghost(0x8000int), Ghost(0x8000int));
        proof {
            crate::vec3::lemma_cross_bound(v3_sub(self@.start, triangle@.v0),
                v3_sub(triangle@.v1, triangle@.v0), 0x8000, 0x8000);
        }
        let vn0 = d.dot(qvec, Ghost(0x2000int), Ghost(0x8000_0000int));
        proof {
            lemma_dot_bound(v3_sub(triangle@.v1, triangle@.v0),
                v3_cross(self@.dir, v3_sub(triangle@.v2, triangle@.v0)), 0x8000, 0x2000_0000);
            lemma_dot_bound(v3_sub(self@.start, triangle@.v0),
                v3_cross(self@.dir, v3_sub(triangle@.v2, triangle@.v0)), 0x8000, 0x2000_0000);
            lemma_dot_bound(self@.dir,
                v3_cross(v3_sub(self@.start, triangle@.v0), v3_sub(triangle@.v1, triangle@.v0)),
                0x2000, 0x8000_0000);
        }
        let ad = if det > 0 { det } else { -det };
        let un = if det > 0 { un0 } else { -un0 };
        let vn = if det > 0 { vn0 } else { -vn0 };
        if un < 0 || un > ad || vn < 0 || un + vn > ad {
            return CollisionPacket::miss();
        }
        let tn0 = e2.dot(qvec, Ghost(0x8000int), Ghost(0x8000_0000int));
        proof {
            lemma_dot_bound(v3_sub(triangle@.v2, triangle@.v0),
                v3_cross(v3_sub(self@.start, triangle@.v0), v3_sub(triangle@.v1, triangle@.v0)),
                0x8000, 0x8000_0000);
        }
        let tn = if det > 0 { tn0 } else { -tn0 };
        let n = e1.cross(e2, Ghost(0x8000int), Ghost(0x8000int));
        proof {
            lemma_mul_bound(self@.start.x, ad as int, 0x4000int, 0x3000_0000_0000int);
            lemma_mul_bound(self@.start.y, ad as int, 0x4000int, 0x3000_0000_0000int);
            lemma_mul_bound(self@.start.z, ad as int, 0x4000int, 0x3000_0000_0000int);
            lemma_mul_bound(self@.dir.x, tn as int, 0x2000int, 0xC000_0000_0000int);
            lemma_mul_bound(self@.dir.y, tn as int, 0x2000int, 0xC000_0000_0000int);
            lemma_mul_bound(self@.dir.z, tn as int, 0x2000int, 0xC000_0000_0000int);
        }
        CollisionPacket {
            collided: true,
            position: FracVec {
                x: self.start.x as i128 * ad + d.x * tn,
                y: self.start.y as i128 * ad + d.y * tn,
                z: self.start.z as i128 * ad + d.z * tn,
                den: ad,
            },
            normal: FracVec { x: n.x, y: n.y, z: n.z, den: 1 },
            penetration_or_time: Frac { num: tn, den: ad },
        }
    }

    /// Cast this ray at the cylinder around `[base, tip]` with the given
    /// radius.  See `ray_cylinder_model`.
    pub fn vs_cylinder(&self, base: &Vec3, tip: &Vec3, radius: i64) -> (r: CollisionPacket)
        requires
            self.start.bounded(0x4000),
            self.direction.bounded(0x2000),
            base.bounded(0x4000),
            tip.bounded(0x4000),
            0 < radius <= 0x2000,
        ensures
            r@ == ray_cylinder_model(self@, base@, tip@, radius as int),
            r.valid(),
    {
        let u = tip.wide().sub(base.wide());
        let w = self.start.wide().sub(base.wide());
        let d = self.direction.wide();
        let u2 = u.norm2(Ghost(0x8000int));
        let d2 = d.norm2(Ghost(0x2000int));
        let ud = u.dot(d, Ghost(0x8000int), Ghost(0x2000int));
        let wd = w.dot(d, Ghost(0x8000int), Ghost(0x2000int));
        let wu = w.dot(u, Ghost(0x8000int), Ghost(0x8000int));
        let w2 = w.norm2(Ghost(0x8000int));
        let ghost uv = v3_sub(tip@, base@);
        let ghost wv = v3_sub(self@.start, base@);
        proof {
            lemma_dot_bound(uv, uv, 0x8000, 0x8000);
            lemma_dot_bound(self@.dir, self@.dir, 0x2000, 0x2000);
            lemma_dot_bound(uv, self@.dir, 0x8000, 0x2000);
            lemma_dot_bound(wv, self@.dir, 0x8000, 0x2000);
            lemma_dot_bound(wv, uv, 0x8000, 0x8000);
            lemma_dot_bound(wv, wv, 0x8000, 0x8000);
            lemma_mul_bound(u2 as int, d2 as int, 0xC000_0000int, 0xC00_0000int);
            lemma_mul_bound(ud as int, ud as int, 0x3000_0000int, 0x3000_0000int);
            lemma_mul_bound(u2 as int, wd as int, 0xC000_0000int, 0x3000_0000int);
            lemma_mul_bound(wu as int, ud as int, 0xC000_0000int, 0x3000_0000int);
            lemma_mul_bound(u2 as int, w2 as int, 0xC000_0000int, 0xC000_0000int);
            lemma_mul_bound(wu as int, wu as int, 0xC000_0000int, 0xC000_0000int);
            lemma_mul_bound(radius as int, radius as int, 0x2000int, 0x2000int);
            lemma_mul_bound(radius as int * radius as int, u2 as int, 0x400_0000int,
                0xC000_0000int);
        }
        let aq = u2 * d2 - ud * ud;
        let bq = u2 * wd - wu * ud;
        let cq = u2 * w2 - wu * wu - radius as i128 * (radius as i128) * u2;
        proof {
            lemma_mul_bound(bq as int, bq as int, 0x4800_0000_0000_0000int,
                0x4800_0000_0000_0000int);
            lemma_mul_bound(aq as int, cq as int, 0x1200_0000_0000_0000int,
                0x1_2300_0000_0000_0000int);
        }
        let disc = bq * bq - aq * cq;
        if aq <= 0 || disc < 0 {
            return CollisionPacket::miss();
        }
        proof {
            lemma_norm2_nonneg(uv);
            lemma_norm2_nonneg(self@.dir);
            assert(u2 > 0) by (nonlinear_arith)
                requires
                    u2 as int >= 0,
                    d2 as int >= 0,
                    (u2 as int) * (d2 as int) - (ud as int) * (ud as int) > 0,
            ;
        }
        let su = isqrt(disc as u128);
        proof {
            assert((su as int) * (su as int) <= disc as int);
            assert(su as int <= 0x7000_0000_0000_0000) by (nonlinear_arith)
                requires
                    0 <= su as int,
                    (su as int) * (su as int) <= disc as int,
                    disc as int <= 0x3000_0000_0000_0000_0000_0000_0000_0000,
            ;
        }
        let s = su as i128;
        let tn = -bq - s;
        let td = aq;
        proof {
            lemma_mul_bound(wu as int, td as int, 0xC000_0000int, 0x1200_0000_0000_0000int);
            lemma_mul_bound(tn as int, ud as int, 0xB800_0000_0000_0000int, 0x3000_0000int);
            lemma_mul_bound(u2 as int, td as int, 0xC000_0000int, 0x1200_0000_0000_0000int);
        }
        let axial = wu * td + tn * ud;
        if axial < 0 || axial > u2 * td {
            return CollisionPacket::miss();
        }
        proof {
            lemma_mul_bound(wv.x, td as int, 0x8000int, 0x1200_0000_0000_0000int);
            lemma_mul_bound(wv.y, td as int, 0x8000int, 0x1200_0000_0000_0000int);
            lemma_mul_bound(wv.z, td as int, 0x8000int, 0x1200_0000_0000_0000int);
            lemma_mul_bound(self@.dir.x, tn as int, 0x2000int, 0xB800_0000_0000_0000int);
            lemma_mul_bound(self@.dir.y, tn as int, 0x2000int, 0xB800_0000_0000_0000int);
            lemma_mul_bound(self@.dir.z, tn as int, 0x2000int, 0xB800_0000_0000_0000int);
            lemma_mul_bound(self@.start.x, td as int, 0x4000int, 0x1200_0000_0000_0000int);
            lemma_mul_bound(self@.start.y, td as int, 0x4000int, 0x1200_0000_0000_0000int);
            lemma_mul_bound(self@.start.z, td as int, 0x4000int, 0x1200_0000_0000_0000int);
        }
        let wt = Wide3 { x: w.x * td + d.x * tn, y: w.y * td + d.y * tn, z: w.z * td + d.z * tn };
        proof {
            lemma_dot_bound(wt@, uv, 0x2000_0000_0000_0000_0000, 0x8000);
        }
        let wtu = wt.dot(u, Ghost(0x2000_0000_0000_0000_0000int), Ghost(0x8000int));
        let s1 = wt.scale(u2, Ghost(0x2000_0000_0000_0000_0000int), Ghost(0xC000_0000int));
        let s2 = u.scale(wtu, Ghost(0x8000int), Ghost(0x3000_0000_0000_0000_0000_0000int));
        proof {
            crate::vec3::lemma_scale_bound(wt@, u2 as int, 0x2000_0000_0000_0000_0000,
                0xC000_0000int);
            crate::vec3::lemma_scale_bound(uv, wtu as int, 0x8000int,
                0x3000_0000_0000_0000_0000_0000int);
            vstd::arithmetic::mul::lemma_mul_strictly_positive(td as int, u2 as int);
        }
        let nnum = s1.sub(s2);
        CollisionPacket {
            collided: tn > 0,
            position: FracVec {
                x: self.start.x as i128 * td + d.x * tn,
                y: self.start.y as i128 * td + d.y * tn,
                z: self.start.z as i128 * td + d.z * tn,
                den: td,
            },
            normal: FracVec { x: nnum.x, y: nnum.y, z: nnum.z, den: td * u2 },
            penetration_or_time: Frac { num: tn, den: td },
        }
    }
}

/// Result of casting a ray at the plane face of a triangle pushed out by
/// `radius` along its own unit normal (taken as the floor axis length of
/// the unnormalized normal): the exact plane crossing time, accepted only
/// when the crossing point projects inside the triangle and the time is
/// strictly positive.  Degenerate triangles and rays parallel to the
/// plane report no contact.
pub open spec fn ray_offset_face_model(ray: RayModel, t: TriangleModel, radius: int) -> PacketModel {
    let e1 = v3_sub(t.v1, t.v0);
    let e2 = v3_sub(t.v2, t.v0);
    let n = v3_cross(e1, e2);
    let n2 = v3_norm2(n);
    let den0 = v3_dot(ray.dir, n);
    if n2 == 0 || den0 == 0 {
        pm_miss()
    } else {
        let tn0 = radius * sqrt_floor(n2) - v3_dot(v3_sub(ray.start, t.v0), n);
        let tn = if den0 > 0 {
            tn0
        } else {
            -tn0
        };
        let td = if den0 > 0 {
            den0
        } else {
            -den0
        };
        let ps = v3_add(v3_scale(ray.start, td), v3_scale(ray.dir, tn));
        let a1 = v3_dot(v3_cross(v3_sub(ps, v3_scale(t.v0, td)), e2), n);
        let a2 = v3_dot(v3_cross(e1, v3_sub(ps, v3_scale(t.v0, td))), n);
        let a3 = v3_dot(v3_cross(v3_sub(t.v2, t.v1), v3_sub(ps, v3_scale(t.v1, td))), n);
        if a1 >= 0 && a2 >= 0 && a3 >= 0 && tn > 0 {
            PacketModel {
                collided: true,
                position: FV3 { num: ps, den: td },
                normal: FV3 { num: n, den: 1 },
                time: FR { num: tn, den: td },
            }
        } else {
            pm_miss()
        }
    }
}

/// Result of casting a ray at a capsule: the best of the two cap-sphere
/// tests and the cylinder test around the full axis.
pub open spec fn ray_capsule_model(ray: RayModel, c: CapsuleModel) -> PacketModel {
    pm_better(
        pm_better(
            ray_sphere_model(ray, SphereModel { center: cap_inner_a(c), radius: c.radius }),
            ray_sphere_model(ray, SphereModel { center: cap_inner_b(c), radius: c.radius }),
        ),
        ray_cylinder_model(ray, c.base, c.tip, c.radius),
    )
}

impl Ray {
    /// Cast this ray at the offset plane face of a triangle.  See
    /// `ray_offset_face_model`.
    pub fn vs_offset_face(&self, triangle: &Triangle, radius: i64) -> (r: CollisionPacket)
        requires
            self.start.bounded(0x4000),
            self.direction.bounded(0x2000),
            triangle.vertex_0.bounded(0x4000),
            triangle.vertex_1.bounded(0x4000),
            triangle.vertex_2.bounded(0x4000),
            0 <= radius <= 0x2000,
        ensures
            r@ == ray_offset_face_model(self@, triangle@, radius as int),
            r.valid(),
    {
        let v0 = triangle.vertex_0.wide();
        let v1 = triangle.vertex_1.wide();
        let v2 = triangle.vertex_2.wide();
        let e1 = v1.sub(v0);
        let e2 = v2.sub(v0);
        let ghost e1v = v3_sub(triangle@.v1, triangle@.v0);
        let ghost e2v = v3_sub(triangle@.v2, triangle@.v0);
        let n = e1.cross(e2, Ghost(0x8000int), Ghost(0x8000int));
        proof {
            crate::vec3::lemma_cross_bound(e1v, e2v, 0x8000, 0x8000);
        }
        let n2 = n.norm2(Ghost(0x8000_0000int));
        let d = self.direction.wide();
        let den0 = d.dot(n, Ghost(0x2000int), Ghost(0x8000_0000int));
        if n2 == 0 || den0 == 0 {
            return CollisionPacket::miss();
        }
        proof {
            lemma_dot_bound(v3_cross(e1v, e2v), v3_cross(e1v, e2v), 0x8000_0000, 0x8000_0000);
            lemma_dot_bound(self@.dir, v3_cross(e1v, e2v), 0x2000, 0x8000_0000);
            lemma_dot_bound(v3_sub(self@.start, triangle@.v0), v3_cross(e1v, e2v), 0x8000,
                0x8000_0000);
        }
        let nl = isqrt(n2 as u128);
        proof {
            assert((nl as int) * (nl as int) <= n2 as int);
            assert(nl as int <= 0x2_0000_0000) by (nonlinear_arith)
                requires
                    0 <= nl as int,
                    (nl as int) * (nl as int) <= n2 as int,
                    n2 as int <= 0xC000_0000_0000_0000,
            ;
        }
        let nlen = nl as i128;
        let sv0 = self.start.wide().sub(v0);
        let sv0n = sv0.dot(n, Ghost(0x8000int), Ghost(0x8000_0000int));
        proof {
            lemma_mul_bound(radius as int, nlen as int, 0x2000int, 0x2_0000_0000int);
        }
        let tn0 = radius as i128 * nlen - sv0n;
        let tn = if den0 > 0 { tn0 } else { -tn0 };
        let td = if den0 > 0 { den0 } else { -den0 };
        proof {
            lemma_mul_bound(self@.start.x, td as int, 0x4000int, 0x3000_0000_0000int);
            lemma_mul_bound(self@.start.y, td as int, 0x4000int, 0x3000_0000_0000int);
            lemma_mul_bound(self@.start.z, td as int, 0x4000int, 0x3000_0000_0000int);
            lemma_mul_bound(self@.dir.x, tn as int, 0x2000int, 0x1_0000_0000_0000int);
            lemma_mul_bound(self@.dir.y, tn as int, 0x2000int, 0x1_0000_0000_0000int);
            lemma_mul_bound(self@.dir.z, tn as int, 0x2000int, 0x1_0000_0000_0000int);
        }
        let ps = Wide3 {
            x: self.start.x as i128 * td + d.x * tn,
            y: self.start.y as i128 * td + d.y * tn,
            z: self.start.z as i128 * td + d.z * tn,
        };
        let sv0td = v0.scale(td, Ghost(0x4000int), Ghost(0x3000_0000_0000int));
        let sv1td = v1.scale(td, Ghost(0x4000int), Ghost(0x3000_0000_0000int));
        proof {
            crate::vec3::lemma_scale_bound(triangle@.v0, td as int, 0x4000, 0x3000_0000_0000int);
            crate::vec3::lemma_scale_bound(triangle@.v1, td as int, 0x4000, 0x3000_0000_0000int);
        }
        let p0 = ps.sub(sv0td);
        let p1 = ps.sub(sv1td);
        let c1 = p0.cross(e2, Ghost(0x3800_0000_0000_0000int), Ghost(0x8000int));
        let c2 = e1.cross(p0, Ghost(0x8000int), Ghost(0x3800_0000_0000_0000int));
        let e21 = v2.sub(v1);
        let c3 = e21.cross(p1, Ghost(0x8000int), Ghost(0x3800_0000_0000_0000int));
        proof {
            crate::vec3::lemma_cross_bound(p0@, e2v, 0x3800_0000_0000_0000, 0x8000);
            crate::vec3::lemma_cross_bound(e1v, p0@, 0x8000, 0x3800_0000_0000_0000);
            crate::vec3::lemma_cross_bound(v3_sub(triangle@.v2, triangle@.v1), p1@, 0x8000,
                0x3800_0000_0000_0000);
        }
        let a1 = c1.dot(n, Ghost(0x7000_0000_0000_0000_0000int), Ghost(0x8000_0000int));
        let a2 = c2.dot(n, Ghost(0x7000_0000_0000_0000_0000int), Ghost(0x8000_0000int));
        let a3 = c3.dot(n, Ghost(0x7000_0000_0000_0000_0000int), Ghost(0x8000_0000int));
        if a1 >= 0 && a2 >= 0 && a3 >= 0 && tn > 0 {
            CollisionPacket {
                collided: true,
                position: FracVec { x: ps.x, y: ps.y, z: ps.z, den: td },
                normal: FracVec { x: n.x, y: n.y, z: n.z, den: 1 },
                penetration_or_time: Frac { num: tn, den: td },
            }
        } else {
            CollisionPacket::miss()
        }
    }

    /// Cast this ray at a capsule: best of the two cap spheres and the
    /// axis cylinder.  See `ray_capsule_model`.
    pub fn vs_capsule(&self, capsule: &Capsule) -> (r: CollisionPacket)
        requires
            self.start.bounded(0x4000),
            self.direction.bounded(0x2000),
            capsule.base.bounded(0x4000),
            capsule.tip.bounded(0x4000),
            0 < capsule.radius <= 0x2000,
        ensures
            r@ == ray_capsule_model(self@, capsule@),
            r.valid(),
    {
        let (a, b) = capsule.inner_segment();
        let pa = self.vs_sphere(&Sphere::new(a, capsule.radius));
        let pb = self.vs_sphere(&Sphere::new(b, capsule.radius));
        let pc = self.vs_cylinder(&capsule.get_base(), &capsule.get_tip(), capsule.radius);
        pa.keep_best(pb).keep_best(pc)
    }
}

} // verus!


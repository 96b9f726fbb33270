//! Sphere queries: sphere, capsule, triangle, ray, and the swept test
//! against a moving triangle.

use vstd::prelude::*;
use crate::closest::{closest_point_on_line_grid, grid_dist2, seg_closest_grid, tri_inside};
use crate::frac::{Frac, FracVec, FR, FV3};
use crate::intmath::{isqrt, sqrt_floor};
use crate::packet::{fr_in_window, pm_better, CollisionPacket, PacketModel};
use crate::ray::{ray_cylinder_model, ray_offset_face_model, ray_sphere_model};
use crate::shapes::{cap_inner_a, cap_inner_b, Capsule, CapsuleModel, Ray, RayModel, Sphere,
    SphereModel, Triangle, TriangleModel};
use crate::vec3::{lemma_dot_bound, lemma_mul_bound, v3_add, v3_cross, v3_dot, v3_norm2, v3_scale,
    v3_sub, Vec3, V3, Wide3};

verus! {

/// Result of a static sphere-sphere overlap test: `collided` exactly when
/// the squared center distance is within the squared radius sum; the
/// reported depth is the radius sum minus the floor center distance; the
/// normal points from the other center to this one, unnormalized; the
/// contact point lies on this sphere's surface toward the other center
/// (this center itself when the spheres are concentric).
pub open spec fn sphere_sphere_model(s1: SphereModel, s2: SphereModel) -> PacketModel {
    let diff = v3_sub(s1.center, s2.center);
    let d2 = v3_norm2(diff);
    let rsum = s1.radius + s2.radius;
    let len = sqrt_floor(d2);
    let pen = rsum - len;
    PacketModel {
        collided: d2 <= rsum * rsum,
        position: if len == 0 {
            FV3 { num: s1.center, den: 1 }
        } else {
            FV3 {
                num: v3_add(v3_scale(s1.center, len), v3_scale(diff, pen - s1.radius)),
                den: len,
            }
        },
        normal: FV3 { num: diff, den: 1 },
        time: FR { num: pen, den: 1 },
    }
}

/// Result of a static sphere-capsule test: a sphere-sphere test against a
/// sphere of the capsule's radius centered at the (grid-rounded) closest
/// point of the capsule's inner segment to this sphere's center.
pub open spec fn sphere_capsule_model(s: SphereModel, c: CapsuleModel) -> PacketModel {
    sphere_sphere_model(
        s,
        SphereModel {
            center: seg_closest_grid(cap_inner_a(c), cap_inner_b(c), s.center),
            radius: c.radius,
        },
    )
}

/// Result of a static sphere-triangle test.  The plane test (squared,
/// exact) rejects centers farther than the radius from the triangle's
/// plane; a rejected query carries the scaled signed plane distance as a
/// diagnostic scalar.  Otherwise the center is tested against the
/// triangle's inside region and against the three (grid-rounded) edge
/// closest points; the nearest contact wins by a running minimum.
pub open spec fn sphere_triangle_model(s: SphereModel, t: TriangleModel) -> PacketModel {
    let e1 = v3_sub(t.v1, t.v0);
    let e2 = v3_sub(t.v2, t.v0);
    let n = v3_cross(e1, e2);
    let n2 = v3_norm2(n);
    let nlen = sqrt_floor(n2);
    let distn = v3_dot(v3_sub(s.center, t.v0), n);
    if distn * distn > s.radius * s.radius * n2 {
        PacketModel {
            collided: false,
            position: FV3 { num: V3 { x: 0, y: 0, z: 0 }, den: 1 },
            normal: FV3 { num: n, den: 1 },
            time: FR { num: distn, den: if nlen == 0 { 1 } else { nlen } },
        }
    } else if n2 == 0 {
        PacketModel {
            collided: true,
            position: FV3 { num: s.center, den: 1 },
            normal: FV3 { num: V3 { x: 0, y: 0, z: 0 }, den: 1 },
            time: FR { num: s.radius, den: 1 },
        }
    } else {
        let inside = tri_inside(t, n, s.center);
        let q1 = seg_closest_grid(t.v0, t.v1, s.center);
        let q2 = seg_closest_grid(t.v1, t.v2, s.center);
        let q3 = seg_closest_grid(t.v2, t.v0, s.center);
        let d1 = v3_norm2(v3_sub(s.center, q1));
        let d2 = v3_norm2(v3_sub(s.center, q2));
        let d3 = v3_norm2(v3_sub(s.center, q3));
        let r2 = s.radius * s.radius;
        let intersects = d1 < r2 || d2 < r2 || d3 < r2;
        if inside {
            PacketModel {
                collided: true,
                position: FV3 { num: v3_sub(v3_scale(s.center, n2), v3_scale(n, distn)), den: n2 },
                normal: FV3 { num: v3_scale(n, distn), den: n2 },
                time: FR {
                    num: s.radius * nlen - (if distn < 0 { -distn } else { distn }),
                    den: if nlen == 0 { 1 } else { nlen },
                },
            }
        } else if intersects {
            let q = if d2 < d1 {
                if d3 < d2 { q3 } else { q2 }
            } else {
                if d3 < d1 { q3 } else { q1 }
            };
            let dq = v3_norm2(v3_sub(s.center, q));
            PacketModel {
                collided: true,
                position: FV3 { num: q, den: 1 },
                normal: FV3 { num: v3_sub(s.center, q), den: 1 },
                time: FR { num: s.radius - sqrt_floor(dq), den: 1 },
            }
        } else {
            PacketModel {
                collided: false,
                position: FV3 { num: v3_sub(v3_scale(s.center, n2), v3_scale(n, distn)), den: n2 },
                normal: FV3 { num: V3 { x: 0, y: 1, z: 0 }, den: 1 },
                time: FR { num: 0, den: 1 },
            }
        }
    }
}

/// Result of sweeping a sphere along a velocity against a static
/// triangle: the earliest hit among the three edge cylinders, the three
/// vertex spheres and the two offset plane faces, gated to the frame
/// window `[0, 1)`.
pub open spec fn swept_sphere_triangle_model(s: SphereModel, vel: V3, t: TriangleModel)
    -> PacketModel {
    let ray = RayModel { start: s.center, dir: vel };
    let m1 = ray_cylinder_model(ray, t.v0, t.v1, s.radius);
    let m2 = ray_cylinder_model(ray, t.v1, t.v2, s.radius);
    let m3 = ray_cylinder_model(ray, t.v2, t.v0, s.radius);
    let m4 = ray_sphere_model(ray, SphereModel { center: t.v0, radius: s.radius });
    let m5 = ray_sphere_model(ray, SphereModel { center: t.v1, radius: s.radius });
    let m6 = ray_sphere_model(ray, SphereModel { center: t.v2, radius: s.radius });
    let m7 = ray_offset_face_model(ray, t, s.radius);
    let m8 = ray_offset_face_model(
        ray,
        TriangleModel { v0: t.v0, v1: t.v2, v2: t.v1 },
        s.radius,
    );
    let best = pm_better(
        pm_better(
            pm_better(pm_better(pm_better(pm_better(pm_better(m1, m2), m3), m4), m5), m6),
            m7,
        ),
        m8,
    );
    PacketModel { collided: best.collided && fr_in_window(best.time), ..best }
}

impl Sphere {
    /// Static overlap test against another sphere.  See
    /// `sphere_sphere_model`.
    pub fn vs_sphere(&self, other: &Sphere) -> (r: CollisionPacket)
        requires
            self.center.bounded(0x8000),
            other.center.bounded(0x8000),
            0 < self.radius <= 0x2000,
            0 < other.radius <= 0x2000,
        ensures
            r@ == sphere_sphere_model(self@, other@),
            r.valid(),
    {
        let diff = Wide3 {
            x: self.center.x as i128 - other.center.x as i128,
            y: self.center.y as i128 - other.center.y as i128,
            z: self.center.z as i128 - other.center.z as i128,
        };
        let ghost dv = v3_sub(self@.center, other@.center);
        let d2 = diff.norm2(Ghost(0x1_0000int));
        proof {
            lemma_dot_bound(dv, dv, 0x1_0000, 0x1_0000);
        }
        let rsum = self.radius + other.radius;
        let lu = isqrt(d2 as u128);
        proof {
            assert((lu as int) * (lu as int) <= d2 as int);
            assert(lu as int <= 0x4_0000) by (nonlinear_arith)
                requires
                    0 <= lu as int,
                    (lu as int) * (lu as int) <= d2 as int,
                    d2 as int <= 0x3_0000_0000,
            ;
            lemma_mul_bound(rsum as int, rsum as int, 0x4000int, 0x4000int);
        }
        let len = lu as i128;
        let pen = rsum as i128 - len;
        let collided = d2 <= rsum as i128 * rsum as i128;
        let position = if len == 0 {
            FracVec { x: self.center.x as i128, y: self.center.y as i128,
                z: self.center.z as i128, den: 1 }
        } else {
            proof {
                lemma_mul_bound(self@.center.x, len as int, 0x8000int, 0x4_0000int);
                lemma_mul_bound(self@.center.y, len as int, 0x8000int, 0x4_0000int);
                lemma_mul_bound(self@.center.z, len as int, 0x8000int, 0x4_0000int);
                lemma_mul_bound(dv.x, pen as int - self@.radius, 0x1_0000int, 0x8_0000int);
                lemma_mul_bound(dv.y, pen as int - self@.radius, 0x1_0000int, 0x8_0000int);
                lemma_mul_bound(dv.z, pen as int - self@.radius, 0x1_0000int, 0x8_0000int);
            }
            let k = pen - self.radius as i128;
            FracVec {
                x: self.center.x as i128 * len + diff.x * k,
                y: self.center.y as i128 * len + diff.y * k,
                z: self.center.z as i128 * len + diff.z * k,
                den: len,
            }
        };
        CollisionPacket {
            collided,
            position,
            normal: FracVec { x: diff.x, y: diff.y, z: diff.z, den: 1 },
            penetration_or_time: Frac { num: pen, den: 1 },
        }
    }

    /// Static overlap test against a capsule.  See `sphere_capsule_model`.
    pub fn vs_capsule(&self, other: &Capsule) -> (r: CollisionPacket)
        requires
            self.center.bounded(0x8000),
            0 < self.radius <= 0x2000,
            other.base.bounded(0x4000),
            other.tip.bounded(0x4000),
            0 < other.radius <= 0x2000,
        ensures
            r@ == sphere_capsule_model(self@, other@),
            r.valid(),
    {
        let (a, b) = other.inner_segment();
        let best_b = closest_point_on_line_grid(&a, &b, &self.get_center());
        self.vs_sphere(&Sphere::new(best_b, other.radius))
    }

    /// Static overlap test against a triangle.  See
    /// `sphere_triangle_model`.
    pub fn vs_triangle(&self, triangle: &Triangle) -> (r: CollisionPacket)
        requires
            self.center.bounded(0x8000),
            0 < self.radius <= 0x2000,
            triangle.vertex_0.bounded(0x4000),
            triangle.vertex_1.bounded(0x4000),
            triangle.vertex_2.bounded(0x4000),
        ensures
            r@ == sphere_triangle_model(self@, triangle@),
            r.valid(),
    {
        let v0 = triangle.vertex_0.wide();
        let e1 = triangle.vertex_1.wide().sub(v0);
        let e2 = triangle.vertex_2.wide().sub(v0);
        let ghost e1v = v3_sub(triangle@.v1, triangle@.v0);
        let ghost e2v = v3_sub(triangle@.v2, triangle@.v0);
        let n = e1.cross(e2, Ghost(0x8000int), Ghost(0x8000int));
        proof {
            crate::vec3::lemma_cross_bound(e1v, e2v, 0x8000, 0x8000);
        }
        let n2 = n.norm2(Ghost(0x8000_0000int));
        let cv0 = self.center.wide().sub(v0);
        let distn = cv0.dot(n, Ghost(0xC000int), Ghost(0x8000_0000int));
        proof {
            lemma_dot_bound(v3_cross(e1v, e2v), v3_cross(e1v, e2v), 0x8000_0000, 0x8000_0000);
            lemma_dot_bound(v3_sub(self@.center, triangle@.v0), v3_cross(e1v, e2v), 0xC000,
                0x8000_0000);
            lemma_mul_bound(distn as int, distn as int, 0x1_2000_0000_0000int,
                0x1_2000_0000_0000int);
            lemma_mul_bound(self@.radius, self@.radius, 0x2000int, 0x2000int);
            lemma_mul_bound(self@.radius * self@.radius, n2 as int, 0x400_0000int,
                0xC000_0000_0000_0000int);
        }
        let nl = isqrt(n2 as u128);
        proof {
            assert((nl as int) * (nl as int) <= n2 as int);
            assert(nl as int <= 0x4_0000_0000) by (nonlinear_arith)
                requires
                    0 <= nl as int,
                    (nl as int) * (nl as int) <= n2 as int,
                    n2 as int <= 0xC000_0000_0000_0000,
            ;
        }
        let nlen = nl as i128;
        let nden: i128 = if nlen == 0 { 1 } else { nlen };
        if distn * distn > self.radius as i128 * self.radius as i128 * n2 {
            return CollisionPacket {
                collided: false,
                position: FracVec::zero(),
                normal: FracVec { x: n.x, y: n.y, z: n.z, den: 1 },
                penetration_or_time: Frac { num: distn, den: nden },
            };
        }
        if n2 == 0 {
            return CollisionPacket {
                collided: true,
                position: FracVec {
                    x: self.center.x as i128,
                    y: self.center.y as i128,
                    z: self.center.z as i128,
                    den: 1,
                },
                normal: FracVec { x: 0, y: 0, z: 0, den: 1 },
                penetration_or_time: Frac { num: self.radius as i128, den: 1 },
            };
        }
        let nvec = Vec3 { x: n.x as i64, y: n.y as i64, z: n.z as i64 };
        let center = self.get_center();
        let inside = crate::closest::tri_inside_test(triangle, &nvec, &center);
        let q1 = closest_point_on_line_grid(&triangle.vertex_0, &triangle.vertex_1, &center);
        let q2 = closest_point_on_line_grid(&triangle.vertex_1, &triangle.vertex_2, &center);
        let q3 = closest_point_on_line_grid(&triangle.vertex_2, &triangle.vertex_0, &center);
        let d1 = grid_dist2(&center, &q1);
        let d2 = grid_dist2(&center, &q2);
        let d3 = grid_dist2(&center, &q3);
        let r2 = self.radius as i128 * self.radius as i128;
        let intersects = d1 < r2 || d2 < r2 || d3 < r2;
        proof {
            lemma_mul_bound(self@.center.x, n2 as int, 0x8000int, 0xC000_0000_0000_0000int);
            lemma_mul_bound(self@.center.y, n2 as int, 0x8000int, 0xC000_0000_0000_0000int);
            lemma_mul_bound(self@.center.z, n2 as int, 0x8000int, 0xC000_0000_0000_0000int);
            lemma_mul_bound(v3_cross(e1v, e2v).x, distn as int, 0x8000_0000int,
                0x1_2000_0000_0000int);
            lemma_mul_bound(v3_cross(e1v, e2v).y, distn as int, 0x8000_0000int,
                0x1_2000_0000_0000int);
            lemma_mul_bound(v3_cross(e1v, e2v).z, distn as int, 0x8000_0000int,
                0x1_2000_0000_0000int);
            lemma_mul_bound(self@.radius, nlen as int, 0x2000int, 0x4_0000_0000int);
        }
        if inside {
            let adist = if distn < 0 { -distn } else { distn };
            return CollisionPacket {
                collided: true,
                position: FracVec {
                    x: self.center.x as i128 * n2 - n.x * distn,
                    y: self.center.y as i128 * n2 - n.y * distn,
                    z: self.center.z as i128 * n2 - n.z * distn,
                    den: n2,
                },
                normal: FracVec { x: n.x * distn, y: n.y * distn, z: n.z * distn, den: n2 },
                penetration_or_time: Frac { num: self.radius as i128 * nlen - adist, den: nden },
            };
        }
        if intersects {
            let q = if d2 < d1 {
                if d3 < d2 { q3 } else { q2 }
            } else {
                if d3 < d1 { q3 } else { q1 }
            };
            let dq = grid_dist2(&center, &q);
            let lq = isqrt(dq as u128);
            proof {
                assert((lq as int) * (lq as int) <= dq as int);
                assert(lq as int <= 0x4_0000) by (nonlinear_arith)
                    requires
                        0 <= lq as int,
                        (lq as int) * (lq as int) <= dq as int,
                        dq as int <= 0x3_0000_0000,
                ;
            }
            return CollisionPacket {
                collided: true,
                position: FracVec { x: q.x as i128, y: q.y as i128, z: q.z as i128, den: 1 },
                normal: FracVec {
                    x: self.center.x as i128 - q.x as i128,
                    y: self.center.y as i128 - q.y as i128,
                    z: self.center.z as i128 - q.z as i128,
                    den: 1,
                },
                penetration_or_time: Frac { num: self.radius as i128 - lq as i128, den: 1 },
            };
        }
        CollisionPacket {
            collided: false,
            position: FracVec {
                x: self.center.x as i128 * n2 - n.x * distn,
                y: self.center.y as i128 * n2 - n.y * distn,
                z: self.center.z as i128 * n2 - n.z * distn,
                den: n2,
            },
            normal: FracVec::unit_y(),
            penetration_or_time: Frac::whole(0),
        }
    }

    /// Sweep this sphere along `velocity` against a static triangle.  See
    /// `swept_sphere_triangle_model`.
    pub fn vs_while_moving_triangle(&self, velocity: &Vec3, triangle: &Triangle) -> (r:
        CollisionPacket)
        requires
            self.center.bounded(0x4000),
            0 < self.radius <= 0x2000,
            velocity.bounded(0x2000),
            triangle.vertex_0.bounded(0x4000),
            triangle.vertex_1.bounded(0x4000),
            triangle.vertex_2.bounded(0x4000),
        ensures
            r@ == swept_sphere_triangle_model(self@, velocity@, triangle@),
            r.valid(),
    {
        let ray = Ray::new(self.get_center(), *velocity);
        let reversed = Triangle::new(triangle.vertex_0, triangle.vertex_2, triangle.vertex_1);
        let best = ray.vs_cylinder(&triangle.vertex_0, &triangle.vertex_1, self.radius).keep_best(
            ray.vs_cylinder(&triangle.vertex_1, &triangle.vertex_2, self.radius),
        ).keep_best(ray.vs_cylinder(&triangle.vertex_2, &triangle.vertex_0, self.radius)).keep_best(
            ray.vs_sphere(&Sphere::new(triangle.vertex_0, self.radius)),
        ).keep_best(ray.vs_sphere(&Sphere::new(triangle.vertex_1, self.radius))).keep_best(
            ray.vs_sphere(&Sphere::new(triangle.vertex_2, self.radius)),
        ).keep_best(ray.vs_offset_face(triangle, self.radius)).keep_best(
            ray.vs_offset_face(&reversed, self.radius),
        );
        best.gate_window()
    }

    /// Cast a ray at this sphere (the ray test from the sphere's side).
    pub fn vs_ray(&self, ray: &Ray) -> (r: CollisionPacket)
        requires
            ray.start.bounded(0x8000),
            ray.direction.bounded(0x2000),
            self.center.bounded(0x8000),
            0 < self.radius <= 0x2000,
        ensures
            r@ == ray_sphere_model(ray@, self@),
            r.valid(),
    {
        ray.vs_sphere(self)
    }
}

} // verus!

//! Capsule queries: sphere, capsule, triangle, ray, and the swept test
//! against a moving triangle.

use vstd::prelude::*;
use crate::closest::{closest_point_on_line_grid, closest_point_on_triangle, grid_dist2,
    seg_closest_grid, tri_closest_grid};
use crate::frac::{Frac, FracVec, FR, FV3};
use crate::intmath::{isqrt, lemma_div_mag, sqrt_floor};
use crate::packet::{fr_in_window, pm_better, CollisionPacket, PacketModel};
use crate::ray::{ray_capsule_model, ray_cylinder_model, ray_offset_face_model, ray_triangle_model};
use crate::shapes::{cap_inner_a, cap_inner_b, Capsule, CapsuleModel, Ray, RayModel, Sphere,
    SphereModel, Triangle, TriangleModel};
use crate::sphere::{sphere_capsule_model, sphere_triangle_model};
use crate::vec3::{lemma_dot_bound, lemma_mul_bound, v3_add, v3_cross, v3_dot, v3_norm2, v3_scale,
    v3_sub, Vec3, V3, Wide3};

verus! {

/// Reference points derived from a line-plane intersection are clamped,
/// componentwise, into this box before the closest-triangle-point search;
/// a nearly plane-parallel capsule axis can otherwise push the
/// intersection arbitrarily far out.
pub const REF_CLAMP: i64 = 0x2000_0000;

/// Clamp a scalar into `[-k, k]`.
pub open spec fn clamp_mag(x: int, k: int) -> int {
    if x < -k {
        -k
    } else if x > k {
        k
    } else {
        x
    }
}

/// Result of a static capsule-capsule test: the classic segment-segment
/// nearest-point reduction.  The four squared distances between the cap
/// centers choose which end seeds the search; two clamped projections
/// produce the nearest pair of (grid-rounded) core points, and the pair is
/// treated as two spheres of the summed radii.
pub open spec fn capsule_capsule_model(c1: CapsuleModel, c2: CapsuleModel) -> PacketModel {
    let a1 = cap_inner_a(c1);
    let b1 = cap_inner_b(c1);
    let a2 = cap_inner_a(c2);
    let b2 = cap_inner_b(c2);
    let d0 = v3_norm2(v3_sub(a2, a1));
    let d1 = v3_norm2(v3_sub(b2, a1));
    let d2 = v3_norm2(v3_sub(a2, b1));
    let d3 = v3_norm2(v3_sub(b2, b1));
    let best_b = if d2 < d0 || d2 < d1 || d3 < d0 || d3 < d1 {
        seg_closest_grid(b2, a2, b1)
    } else {
        seg_closest_grid(b2, a2, a1)
    };
    let best_a = seg_closest_grid(a1, b1, best_b);
    let diff = v3_sub(best_a, best_b);
    let dd = v3_norm2(diff);
    let len = sqrt_floor(dd);
    let rsum = c1.radius + c2.radius;
    let pen = rsum - len;
    PacketModel {
        collided: dd < rsum * rsum,
        position: if len == 0 {
            FV3 { num: best_b, den: 1 }
        } else {
            FV3 { num: v3_add(v3_scale(best_b, len), v3_scale(diff, pen)), den: len }
        },
        normal: FV3 { num: diff, den: 1 },
        time: FR { num: pen, den: 1 },
    }
}

/// The reference point of the capsule-triangle reduction: the capsule's
/// axis line intersected with the triangle's plane (scaled exactly, then
/// rounded to the grid and clamped), or the first vertex when axis and
/// plane are parallel.
pub open spec fn capsule_triangle_ref(c: CapsuleModel, t: TriangleModel) -> V3 {
    let n = v3_cross(v3_sub(t.v1, t.v0), v3_sub(t.v2, t.v0));
    let u = v3_sub(c.tip, c.base);
    let nu = v3_dot(n, u);
    if nu == 0 {
        t.v0
    } else {
        let k = v3_dot(n, v3_sub(t.v0, c.base));
        let dd = if nu > 0 {
            nu
        } else {
            -nu
        };
        let kk = if nu > 0 {
            k
        } else {
            -k
        };
        V3 {
            x: clamp_mag(c.base.x + u.x * kk / dd, REF_CLAMP as int),
            y: clamp_mag(c.base.y + u.y * kk / dd, REF_CLAMP as int),
            z: clamp_mag(c.base.z + u.z * kk / dd, REF_CLAMP as int),
        }
    }
}

/// Result of a static capsule-triangle test: find the triangle point
/// nearest the axis-plane reference, pick the nearest core point of the
/// capsule to it, and run the sphere-triangle test there.
pub open spec fn capsule_triangle_model(c: CapsuleModel, t: TriangleModel) -> PacketModel {
    let n = v3_cross(v3_sub(t.v1, t.v0), v3_sub(t.v2, t.v0));
    let refq = tri_closest_grid(t, n, capsule_triangle_ref(c, t));
    let center = seg_closest_grid(cap_inner_a(c), cap_inner_b(c), refq);
    sphere_triangle_model(SphereModel { center, radius: c.radius }, t)
}

impl Capsule {
    /// Static overlap test against a sphere (the sphere's test, from the
    /// capsule's side).
    pub fn vs_sphere(&self, other: &Sphere) -> (r: CollisionPacket)
        requires
            other.center.bounded(0x8000),
            0 < other.radius <= 0x2000,
            self.base.bounded(0x4000),
            self.tip.bounded(0x4000),
            0 < self.radius <= 0x2000,
        ensures
            r@ == sphere_capsule_model(other@, self@),
            r.valid(),
    {
        other.vs_capsule(self)
    }

    /// Static overlap test against another capsule.  See
    /// `capsule_capsule_model`.
    pub fn vs_capsule(&self, other: &Capsule) -> (r: CollisionPacket)
        requires
            self.base.bounded(0x4000),
            self.tip.bounded(0x4000),
            0 < self.radius <= 0x2000,
            other.base.bounded(0x4000),
            other.tip.bounded(0x4000),
            0 < other.radius <= 0x2000,
        ensures
            r@ == capsule_capsule_model(self@, other@),
            r.valid(),
    {
        let (a1, b1) = self.inner_segment();
        let (a2, b2) = other.inner_segment();
        let d0 = grid_dist2(&a2, &a1);
        let d1 = grid_dist2(&b2, &a1);
        let d2 = grid_dist2(&a2, &b1);
        let d3 = grid_dist2(&b2, &b1);
        let best_b = if d2 < d0 || d2 < d1 || d3 < d0 || d3 < d1 {
            closest_point_on_line_grid(&b2, &a2, &b1)
        } else {
            closest_point_on_line_grid(&b2, &a2, &a1)
        };
        let best_a = closest_point_on_line_grid(&a1, &b1, &best_b);
        let dd = grid_dist2(&best_a, &best_b);
        let diff = Wide3 {
            x: best_a.x as i128 - best_b.x as i128,
            y: best_a.y as i128 - best_b.y as i128,
            z: best_a.z as i128 - best_b.z as i128,
        };
        proof {
            lemma_dot_bound(v3_sub(best_a@, best_b@), v3_sub(best_a@, best_b@), 0x1_0000, 0x1_0000);
        }
        let lu = isqrt(dd as u128);
        proof {
            assert((lu as int) * (lu as int) <= dd as int);
            assert(lu as int <= 0x4_0000) by (nonlinear_arith)
                requires
                    0 <= lu as int,
                    (lu as int) * (lu as int) <= dd as int,
                    dd as int <= 0x3_0000_0000,
            ;
            lemma_mul_bound(self@.radius + other@.radius, self@.radius + other@.radius, 0x4000int,
                0x4000int);
        }
        let len = lu as i128;
        let rsum = self.radius + other.radius;
        let pen = rsum as i128 - len;
        let collided = dd < rsum as i128 * rsum as i128;
        let position = if len == 0 {
            FracVec { x: best_b.x as i128, y: best_b.y as i128, z: best_b.z as i128, den: 1 }
        } else {
            proof {
                lemma_mul_bound(best_b@.x, len as int, 0x8000int, 0x4_0000int);
                lemma_mul_bound(best_b@.y, len as int, 0x8000int, 0x4_0000int);
                lemma_mul_bound(best_b@.z, len as int, 0x8000int, 0x4_0000int);
                lemma_mul_bound(diff@.x, pen as int, 0x1_0000int, 0x8_0000int);
                lemma_mul_bound(diff@.y, pen as int, 0x1_0000int, 0x8_0000int);
                lemma_mul_bound(diff@.z, pen as int, 0x1_0000int, 0x8_0000int);
            }
            FracVec {
                x: best_b.x as i128 * len + diff.x * pen,
                y: best_b.y as i128 * len + diff.y * pen,
                z: best_b.z as i128 * len + diff.z * pen,
                den: len,
            }
        };
        CollisionPacket {
            collided,
            position,
            normal: FracVec { x: diff.x, y: diff.y, z: diff.z, den: 1 },
            penetration_or_time: Frac { num: pen, den: 1 },
        }
    }

    /// Static overlap test against a triangle.  See
    /// `capsule_triangle_model`.
    pub fn vs_triangle(&self, triangle: &Triangle) -> (r: CollisionPacket)
        requires
            self.base.bounded(0x4000),
            self.tip.bounded(0x4000),
            0 < self.radius <= 0x2000,
            triangle.vertex_0.bounded(0x4000),
            triangle.vertex_1.bounded(0x4000),
            triangle.vertex_2.bounded(0x4000),
        ensures
            r@ == capsule_triangle_model(self@, triangle@),
            r.valid(),
    {
        let v0 = triangle.vertex_0.wide();
        let e1 = triangle.vertex_1.wide().sub(v0);
        let e2 = triangle.vertex_2.wide().sub(v0);
        let ghost e1v = v3_sub(triangle@.v1, triangle@.v0);
        let ghost e2v = v3_sub(triangle@.v2, triangle@.v0);
        let n = e1.cross(e2, Ghost(0x8000int), Ghost(0x8000int));
        proof {
            crate::vec3::lemma_cross_bound(e1v, e2v, 0x8000, 0x8000);
        }
        let u = self.tip.wide().sub(self.base.wide());
        let ghost uv = v3_sub(self@.tip, self@.base);
        let nu = n.dot(u, Ghost(0x8000_0000int), Ghost(0x8000int));
        proof {
            lemma_dot_bound(v3_cross(e1v, e2v), uv, 0x8000_0000, 0x8000);
        }
        let refp: Vec3 = if nu != 0 {
            let bv0 = v0.sub(self.base.wide());
            let k = n.dot(bv0, Ghost(0x8000_0000int), Ghost(0x8000int));
            proof {
                lemma_dot_bound(v3_cross(e1v, e2v), v3_sub(triangle@.v0, self@.base), 0x8000_0000,
                    0x8000);
            }
            let dd = if nu > 0 { nu } else { -nu };
            let kk = if nu > 0 { k } else { -k };
            proof {
                lemma_mul_bound(uv.x, kk as int, 0x8000int, 0xC000_0000_0000int);
                lemma_mul_bound(uv.y, kk as int, 0x8000int, 0xC000_0000_0000int);
                lemma_mul_bound(uv.z, kk as int, 0x8000int, 0xC000_0000_0000int);
                lemma_div_mag(uv.x * kk, 0x6_0000_0000_0000_0000int, dd as int);
                lemma_div_mag(uv.y * kk, 0x6_0000_0000_0000_0000int, dd as int);
                lemma_div_mag(uv.z * kk, 0x6_0000_0000_0000_0000int, dd as int);
            }
            let lx = self.base.x as i128 + crate::intmath::div_floor(u.x * kk, dd);
            let ly = self.base.y as i128 + crate::intmath::div_floor(u.y * kk, dd);
            let lz = self.base.z as i128 + crate::intmath::div_floor(u.z * kk, dd);
            Vec3 {
                x: clamp_i128(lx) as i64,
                y: clamp_i128(ly) as i64,
                z: clamp_i128(lz) as i64,
            }
        } else {
            triangle.vertex_0
        };
        let nvec = Vec3 { x: n.x as i64, y: n.y as i64, z: n.z as i64 };
        let refq = closest_point_on_triangle(triangle, &nvec, &refp);
        proof {
            crate::closest::lemma_seg_grid_box(triangle@.v0, triangle@.v1, refp@);
            crate::closest::lemma_seg_grid_box(triangle@.v1, triangle@.v2, refp@);
            crate::closest::lemma_seg_grid_box(triangle@.v2, triangle@.v0, refp@);
        }
        let (ia, ib) = self.inner_segment();
        let center = closest_point_on_line_grid(&ia, &ib, &refq);
        Sphere::new(center, self.radius).vs_triangle(triangle)
    }
}

/// Result of sweeping a capsule along a velocity against a static
/// triangle: a ray from the capsule's center along the velocity is cast
/// against every feature of the triangle thickened by the capsule —
/// a translated copy of the capsule at each vertex, cylinders along the
/// translated top and bottom edges, the side quads (two triangles each,
/// both facings) pushed out by the radius, and the top and bottom faces —
/// and the earliest hit is gated to the frame window `[0, 1)`.  All
/// coordinates are doubled so that the capsule's half-axis stays on the
/// grid; the parametric time is unchanged by the scaling.
pub open spec fn swept_capsule_triangle_model(c: CapsuleModel, vel: V3, t: TriangleModel)
    -> PacketModel {
    let ray = RayModel { start: v3_add(c.base, c.tip), dir: v3_scale(vel, 2) };
    let h = v3_sub(c.tip, c.base);
    let r2 = c.radius * 2;
    let w0 = v3_scale(t.v0, 2);
    let w1 = v3_scale(t.v1, 2);
    let w2 = v3_scale(t.v2, 2);
    let tip0 = v3_add(w0, h);
    let tip1 = v3_add(w1, h);
    let tip2 = v3_add(w2, h);
    let bas0 = v3_sub(w0, h);
    let bas1 = v3_sub(w1, h);
    let bas2 = v3_sub(w2, h);
    let b1 = pm_better(
        ray_capsule_model(ray, CapsuleModel { base: bas0, tip: tip0, radius: r2 }),
        ray_capsule_model(ray, CapsuleModel { base: bas1, tip: tip1, radius: r2 }),
    );
    let b2 = pm_better(
        b1,
        ray_capsule_model(ray, CapsuleModel { base: bas2, tip: tip2, radius: r2 }),
    );
    let b3 = pm_better(b2, ray_cylinder_model(ray, tip0, tip1, r2));
    let b4 = pm_better(b3, ray_cylinder_model(ray, tip0, tip2, r2));
    let b5 = pm_better(b4, ray_cylinder_model(ray, tip1, tip2, r2));
    let b6 = pm_better(b5, ray_cylinder_model(ray, bas0, bas1, r2));
    let b7 = pm_better(b6, ray_cylinder_model(ray, bas0, bas2, r2));
    let b8 = pm_better(b7, ray_cylinder_model(ray, bas1, bas2, r2));
    let b9 = pm_better(
        b8,
        ray_offset_face_model(ray, TriangleModel { v0: tip0, v1: tip1, v2: bas0 }, r2),
    );
    let b10 = pm_better(
        b9,
        ray_offset_face_model(ray, TriangleModel { v0: tip0, v1: bas0, v2: tip1 }, r2),
    );
    let b11 = pm_better(
        b10,
        ray_offset_face_model(ray, TriangleModel { v0: bas0, v1: bas1, v2: tip1 }, r2),
    );
    let b12 = pm_better(
        b11,
        ray_offset_face_model(ray, TriangleModel { v0: bas0, v1: tip1, v2: bas1 }, r2),
    );
    let b13 = pm_better(
        b12,
        ray_offset_face_model(ray, TriangleModel { v0: tip0, v1: tip2, v2: bas0 }, r2),
    );
    let b14 = pm_better(
        b13,
        ray_offset_face_model(ray, TriangleModel { v0: tip0, v1: bas0, v2: tip2 }, r2),
    );
    let b15 = pm_better(
        b14,
        ray_offset_face_model(ray, TriangleModel { v0: bas0, v1: bas2, v2: tip2 }, r2),
    );
    let b16 = pm_better(
        b15,
        ray_offset_face_model(ray, TriangleModel { v0: bas0, v1: tip2, v2: bas2 }, r2),
    );
    let b17 = pm_better(
        b16,
        ray_offset_face_model(ray, TriangleModel { v0: tip1, v1: tip2, v2: bas1 }, r2),
    );
    let b18 = pm_better(
        b17,
        ray_offset_face_model(ray, TriangleModel { v0: tip1, v1: bas1, v2: tip2 }, r2),
    );
    let b19 = pm_better(
        b18,
        ray_offset_face_model(ray, TriangleModel { v0: bas1, v1: bas2, v2: tip2 }, r2),
    );
    let b20 = pm_better(
        b19,
        ray_offset_face_model(ray, TriangleModel { v0: bas1, v1: tip2, v2: bas2 }, r2),
    );
    let b21 = pm_better(
        b20,
        ray_triangle_model(ray, TriangleModel { v0: tip0, v1: tip1, v2: tip2 }),
    );
    let best = pm_better(
        b21,
        ray_triangle_model(ray, TriangleModel { v0: bas0, v1: bas2, v2: bas1 }),
    );
    PacketModel { collided: best.collided && fr_in_window(best.time), ..best }
}

impl Capsule {
    /// Sweep this capsule along `velocity` against a static triangle.
    /// See `swept_capsule_triangle_model`.
    #[verifier::rlimit(100)]
    pub fn vs_while_moving_triangle(&self, velocity: &Vec3, triangle: &Triangle) -> (r:
        CollisionPacket)
        requires
            self.wf(),
            velocity.in_range(),
            triangle.wf(),
        ensures
            r@ == swept_capsule_triangle_model(self@, velocity@, triangle@),
            r.valid(),
    {
        let ray = Ray::new(
            Vec3 {
                x: self.base.x + self.tip.x,
                y: self.base.y + self.tip.y,
                z: self.base.z + self.tip.z,
            },
            Vec3 { x: 2 * velocity.x, y: 2 * velocity.y, z: 2 * velocity.z },
        );
        let h = Vec3 {
            x: self.tip.x - self.base.x,
            y: self.tip.y - self.base.y,
            z: self.tip.z - self.base.z,
        };
        let r2 = 2 * self.radius;
        let tip0 = Vec3 {
            x: 2 * triangle.vertex_0.x + h.x,
            y: 2 * triangle.vertex_0.y + h.y,
            z: 2 * triangle.vertex_0.z + h.z,
        };
        let tip1 = Vec3 {
            x: 2 * triangle.vertex_1.x + h.x,
            y: 2 * triangle.vertex_1.y + h.y,
            z: 2 * triangle.vertex_1.z + h.z,
        };
        let tip2 = Vec3 {
            x: 2 * triangle.vertex_2.x + h.x,
            y: 2 * triangle.vertex_2.y + h.y,
            z: 2 * triangle.vertex_2.z + h.z,
        };
        let bas0 = Vec3 {
            x: 2 * triangle.vertex_0.x - h.x,
            y: 2 * triangle.vertex_0.y - h.y,
            z: 2 * triangle.vertex_0.z - h.z,
        };
        let bas1 = Vec3 {
            x: 2 * triangle.vertex_1.x - h.x,
            y: 2 * triangle.vertex_1.y - h.y,
            z: 2 * triangle.vertex_1.z - h.z,
        };
        let bas2 = Vec3 {
            x: 2 * triangle.vertex_2.x - h.x,
            y: 2 * triangle.vertex_2.y - h.y,
            z: 2 * triangle.vertex_2.z - h.z,
        };
        let best = ray.vs_capsule(&Capsule::new(bas0, tip0, r2)).keep_best(
            ray.vs_capsule(&Capsule::new(bas1, tip1, r2)),
        ).keep_best(ray.vs_capsule(&Capsule::new(bas2, tip2, r2))).keep_best(
            ray.vs_cylinder(&tip0, &tip1, r2),
        ).keep_best(ray.vs_cylinder(&tip0, &tip2, r2)).keep_best(
            ray.vs_cylinder(&tip1, &tip2, r2),
        ).keep_best(ray.vs_cylinder(&bas0, &bas1, r2)).keep_best(
            ray.vs_cylinder(&bas0, &bas2, r2),
        ).keep_best(ray.vs_cylinder(&bas1, &bas2, r2)).keep_best(
            ray.vs_offset_face(&Triangle::new(tip0, tip1, bas0), r2),
        ).keep_best(ray.vs_offset_face(&Triangle::new(tip0, bas0, tip1), r2)).keep_best(
            ray.vs_offset_face(&Triangle::new(bas0, bas1, tip1), r2),
        ).keep_best(ray.vs_offset_face(&Triangle::new(bas0, tip1, bas1), r2)).keep_best(
            ray.vs_offset_face(&Triangle::new(tip0, tip2, bas0), r2),
        ).keep_best(ray.vs_offset_face(&Triangle::new(tip0, bas0, tip2), r2)).keep_best(
            ray.vs_offset_face(&Triangle::new(bas0, bas2, tip2), r2),
        ).keep_best(ray.vs_offset_face(&Triangle::new(bas0, tip2, bas2), r2)).keep_best(
            ray.vs_offset_face(&Triangle::new(tip1, tip2, bas1), r2),
        ).keep_best(ray.vs_offset_face(&Triangle::new(tip1, bas1, tip2), r2)).keep_best(
            ray.vs_offset_face(&Triangle::new(bas1, bas2, tip2), r2),
        ).keep_best(ray.vs_offset_face(&Triangle::new(bas1, tip2, bas2), r2)).keep_best(
            ray.vs_triangle(&Triangle::new(tip0, tip1, tip2)),
        ).keep_best(ray.vs_triangle(&Triangle::new(bas0, bas2, bas1)));
        best.gate_window()
    }
}

/// Clamp a wide scalar into the reference box.
fn clamp_i128(x: i128) -> (r: i128)
    ensures
        r as int == clamp_mag(x as int, REF_CLAMP as int),
        -(REF_CLAMP as int) <= r <= REF_CLAMP as int,
{
    if x < -(REF_CLAMP as i128) {
        -(REF_CLAMP as i128)
    } else if x > REF_CLAMP as i128 {
        REF_CLAMP as i128
    } else {
        x
    }
}

} // verus!

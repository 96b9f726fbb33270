//! Triangle-soup aggregation: run a pairwise test against every triangle
//! and keep the earliest (smallest scalar) of the contacts.
//!
//! Each aggregation promises: it reports contact exactly when some
//! triangle's pairwise test does; the returned packet is one of the
//! pairwise results, with a scalar no larger than any contacting
//! triangle's; and with no contact anywhere it returns the plain miss
//! packet.  There is no early exit — cost is linear in the triangle
//! count.

use vstd::prelude::*;
use crate::capsule::{capsule_triangle_model, swept_capsule_triangle_model};
use crate::frac::fr_le;
use crate::packet::{pm_miss, CollisionPacket};
use crate::ray::ray_triangle_model;
use crate::shapes::{Capsule, Ray, Sphere, Triangle, TriangleModel, TriangleSoup};
use crate::sphere::{sphere_triangle_model, swept_sphere_triangle_model};
use crate::vec3::Vec3;

verus! {

/// Build a triangle soup from a mesh's vertex and index buffers: every
/// three consecutive indices form one triangle.
pub fn generate_triangle_soup(vertices: &Vec<Vec3>, indices: &Vec<u32>) -> (r: TriangleSoup)
    requires
        indices@.len() % 3 == 0,
        forall|i: int| 0 <= i < indices@.len() ==> (#[trigger] indices@[i]) < vertices@.len(),
    ensures
        r@.len() == indices@.len() / 3,
        forall|k: int|
            0 <= k < r@.len() ==> (#[trigger] r@[k]) == (TriangleModel {
                v0: vertices@[indices@[3 * k] as int]@,
                v1: vertices@[indices@[3 * k + 1] as int]@,
                v2: vertices@[indices@[3 * k + 2] as int]@,
            }),
{
    let mut triangles: Vec<Triangle> = Vec::new();
    let n = indices.len();
    let m = n / 3;
    proof {
        vstd::arithmetic::div_mod::lemma_fundamental_div_mod(n as int, 3);
    }
    let mut k: usize = 0;
    while k < m
        invariant
            k <= m,
            n == indices@.len(),
            m == n / 3,
            n == 3 * m,
            forall|j: int| 0 <= j < n ==> (#[trigger] indices@[j]) < vertices@.len(),
            triangles@.len() == k,
            forall|j: int|
                0 <= j < triangles@.len() ==> (#[trigger] triangles@[j])@ == (TriangleModel {
                    v0: vertices@[indices@[3 * j] as int]@,
                    v1: vertices@[indices@[3 * j + 1] as int]@,
                    v2: vertices@[indices@[3 * j + 2] as int]@,
                }),
        decreases m - k,
    {
        let i = 3 * k;
        let t = Triangle::new(
            vertices[indices[i] as usize],
            vertices[indices[i + 1] as usize],
            vertices[indices[i + 2] as usize],
        );
        triangles.push(t);
        k = k + 1;
    }
    let r = TriangleSoup::new(triangles);
    proof {
        assert(r@.len() == triangles@.len());
        assert(forall|k: int| 0 <= k < r@.len() ==> r@[k] == (#[trigger] triangles@[k])@);
    }
    r
}

impl TriangleSoup {
    /// Best static sphere contact over all triangles.
    pub fn vs_sphere(&self, sphere: &Sphere) -> (r: CollisionPacket)
        requires
            self.wf(),
            sphere.center.bounded(0x8000),
            0 < sphere.radius <= 0x2000,
        ensures
            r.valid(),
            r@.collided <==> (exists|i: int|
                0 <= i < self@.len() && (#[trigger] sphere_triangle_model(
                    sphere@,
                    self@[i],
                )).collided),
            r@.collided ==> (exists|i: int|
                0 <= i < self@.len() && (#[trigger] sphere_triangle_model(
                    sphere@,
                    self@[i],
                )).collided && r@ == sphere_triangle_model(sphere@, self@[i])),
            forall|i: int|
                0 <= i < self@.len() && (#[trigger] sphere_triangle_model(
                    sphere@,
                    self@[i],
                )).collided ==> fr_le(r@.time, sphere_triangle_model(sphere@, self@[i]).time),
            !r@.collided ==> r@ == pm_miss(),
    {
        let mut best = CollisionPacket::miss();
        let n = self.len();
        let mut i: usize = 0;
        while i < n
            invariant
                i <= n,
                n == self@.len(),
                self.wf(),
                sphere.center.bounded(0x8000),
                0 < sphere.radius <= 0x2000,
                best.valid(),
                best@.collided <==> (exists|k: int|
                    0 <= k < i && (#[trigger] sphere_triangle_model(sphere@, self@[k])).collided),
                best@.collided ==> (exists|k: int|
                    0 <= k < i && (#[trigger] sphere_triangle_model(sphere@, self@[k])).collided
                        && best@ == sphere_triangle_model(sphere@, self@[k])),
                forall|k: int|
                    0 <= k < i && (#[trigger] sphere_triangle_model(sphere@, self@[k])).collided
                        ==> fr_le(best@.time, sphere_triangle_model(sphere@, self@[k]).time),
                forall|k: int|
                    0 <= k < i ==> (#[trigger] sphere_triangle_model(
                        sphere@,
                        self@[k],
                    )).time.den > 0,
                !best@.collided ==> best@ == pm_miss(),
            decreases n - i,
        {
            let t = self.get(i);
            let p = sphere.vs_triangle(&t);
            if p.collided && (!best.collided || p.penetration_or_time.lt(
                best.penetration_or_time,
            )) {
                proof {
                    if best@.collided {
                        assert forall|k: int|
                            0 <= k < i && (#[trigger] sphere_triangle_model(
                                sphere@,
                                self@[k],
                            )).collided implies fr_le(
                            p@.time,
                            sphere_triangle_model(sphere@, self@[k]).time,
                        ) by {
                            crate::frac::lemma_fr_lt_le_trans(
                                p@.time,
                                best@.time,
                                sphere_triangle_model(sphere@, self@[k]).time,
                            );
                        }
                    }
                }
                best = p;
            }
            i = i + 1;
        }
        best
    }

    /// Best static capsule contact over all triangles.
    pub fn vs_capsule(&self, capsule: &Capsule) -> (r: CollisionPacket)
        requires
            self.wf(),
            capsule.base.bounded(0x4000),
            capsule.tip.bounded(0x4000),
            0 < capsule.radius <= 0x2000,
        ensures
            r.valid(),
            r@.collided <==> (exists|i: int|
                0 <= i < self@.len() && (#[trigger] capsule_triangle_model(
                    capsule@,
                    self@[i],
                )).collided),
            r@.collided ==> (exists|i: int|
                0 <= i < self@.len() && (#[trigger] capsule_triangle_model(
                    capsule@,
                    self@[i],
                )).collided && r@ == capsule_triangle_model(capsule@, self@[i])),
            forall|i: int|
                0 <= i < self@.len() && (#[trigger] capsule_triangle_model(
                    capsule@,
                    self@[i],
                )).collided ==> fr_le(r@.time, capsule_triangle_model(capsule@, self@[i]).time),
            !r@.collided ==> r@ == pm_miss(),
    {
        let mut best = CollisionPacket::miss();
        let n = self.len();
        let mut i: usize = 0;
        while i < n
            invariant
                i <= n,
                n == self@.len(),
                self.wf(),
                capsule.base.bounded(0x4000),
                capsule.tip.bounded(0x4000),
                0 < capsule.radius <= 0x2000,
                best.valid(),
                best@.collided <==> (exists|k: int|
                    0 <= k < i && (#[trigger] capsule_triangle_model(capsule@, self@[k])).collided),
                best@.collided ==> (exists|k: int|
                    0 <= k < i && (#[trigger] capsule_triangle_model(capsule@, self@[k])).collided
                        && best@ == capsule_triangle_model(capsule@, self@[k])),
                forall|k: int|
                    0 <= k < i && (#[trigger] capsule_triangle_model(capsule@, self@[k])).collided
                        ==> fr_le(best@.time, capsule_triangle_model(capsule@, self@[k]).time),
                forall|k: int|
                    0 <= k < i ==> (#[trigger] capsule_triangle_model(
                        capsule@,
                        self@[k],
                    )).time.den > 0,
                !best@.collided ==> best@ == pm_miss(),
            decreases n - i,
        {
            let t = self.get(i);
            let p = capsule.vs_triangle(&t);
            if p.collided && (!best.collided || p.penetration_or_time.lt(
                best.penetration_or_time,
            )) {
                proof {
                    if best@.collided {
                        assert forall|k: int|
                            0 <= k < i && (#[trigger] capsule_triangle_model(
                                capsule@,
                                self@[k],
                            )).collided implies fr_le(
                            p@.time,
                            capsule_triangle_model(capsule@, self@[k]).time,
                        ) by {
                            crate::frac::lemma_fr_lt_le_trans(
                                p@.time,
                                best@.time,
                                capsule_triangle_model(capsule@, self@[k]).time,
                            );
                        }
                    }
                }
                best = p;
            }
            i = i + 1;
        }
        best
    }

    /// Best ray contact over all triangles.
    pub fn vs_ray(&self, ray: &Ray) -> (r: CollisionPacket)
        requires
            self.wf(),
            ray.start.bounded(0x4000),
            ray.direction.bounded(0x2000),
        ensures
            r.valid(),
            r@.collided <==> (exists|i: int|
                0 <= i < self@.len() && (#[trigger] ray_triangle_model(ray@, self@[i])).collided),
            r@.collided ==> (exists|i: int|
                0 <= i < self@.len() && (#[trigger] ray_triangle_model(ray@, self@[i])).collided
                    && r@ == ray_triangle_model(ray@, self@[i])),
            forall|i: int|
                0 <= i < self@.len() && (#[trigger] ray_triangle_model(ray@, self@[i])).collided
                    ==> fr_le(r@.time, ray_triangle_model(ray@, self@[i]).time),
            !r@.collided ==> r@ == pm_miss(),
    {
        let mut best = CollisionPacket::miss();
        let n = self.len();
        let mut i: usize = 0;
        while i < n
            invariant
                i <= n,
                n == self@.len(),
                self.wf(),
                ray.start.bounded(0x4000),
                ray.direction.bounded(0x2000),
                best.valid(),
                best@.collided <==> (exists|k: int|
                    0 <= k < i && (#[trigger] ray_triangle_model(ray@, self@[k])).collided),
                best@.collided ==> (exists|k: int|
                    0 <= k < i && (#[trigger] ray_triangle_model(ray@, self@[k])).collided && best@
                        == ray_triangle_model(ray@, self@[k])),
                forall|k: int|
                    0 <= k < i && (#[trigger] ray_triangle_model(ray@, self@[k])).collided
                        ==> fr_le(best@.time, ray_triangle_model(ray@, self@[k]).time),
                forall|k: int|
                    0 <= k < i ==> (#[trigger] ray_triangle_model(ray@, self@[k])).time.den > 0,
                !best@.collided ==> best@ == pm_miss(),
            decreases n - i,
        {
            let t = self.get(i);
            let p = ray.vs_triangle(&t);
            if p.collided && (!best.collided || p.penetration_or_time.lt(
                best.penetration_or_time,
            )) {
                proof {
                    if best@.collided {
                        assert forall|k: int|
                            0 <= k < i && (#[trigger] ray_triangle_model(
                                ray@,
                                self@[k],
                            )).collided implies fr_le(
                            p@.time,
                            ray_triangle_model(ray@, self@[k]).time,
                        ) by {
                            crate::frac::lemma_fr_lt_le_trans(
                                p@.time,
                                best@.time,
                                ray_triangle_model(ray@, self@[k]).time,
                            );
                        }
                    }
                }
                best = p;
            }
            i = i + 1;
        }
        best
    }

    /// Best swept-sphere contact over all triangles.
    #[verifier::rlimit(100)]
    pub fn vs_moving_sphere(&self, sphere: &Sphere, velocity: &Vec3) -> (r: CollisionPacket)
        requires
            self.wf(),
            sphere.center.bounded(0x4000),
            0 < sphere.radius <= 0x2000,
            velocity.bounded(0x2000),
        ensures
            r.valid(),
            r@.collided <==> (exists|i: int|
                0 <= i < self@.len() && (#[trigger] swept_sphere_triangle_model(
                    sphere@,
                    velocity@,
                    self@[i],
                )).collided),
            r@.collided ==> (exists|i: int|
                0 <= i < self@.len() && (#[trigger] swept_sphere_triangle_model(
                    sphere@,
                    velocity@,
                    self@[i],
                )).collided && r@ == swept_sphere_triangle_model(sphere@, velocity@, self@[i])),
            forall|i: int|
                0 <= i < self@.len() && (#[trigger] swept_sphere_triangle_model(
                    sphere@,
                    velocity@,
                    self@[i],
                )).collided ==> fr_le(
                    r@.time,
                    swept_sphere_triangle_model(sphere@, velocity@, self@[i]).time,
                ),
            !r@.collided ==> r@ == pm_miss(),
    {
        let mut best = CollisionPacket::miss();
        let n = self.len();
        let mut i: usize = 0;
        while i < n
            invariant
                i <= n,
                n == self@.len(),
                self.wf(),
                sphere.center.bounded(0x4000),
                0 < sphere.radius <= 0x2000,
                velocity.bounded(0x2000),
                best.valid(),
                best@.collided <==> (exists|k: int|
                    0 <= k < i && (#[trigger] swept_sphere_triangle_model(
                        sphere@,
                        velocity@,
                        self@[k],
                    )).collided),
                best@.collided ==> (exists|k: int|
                    0 <= k < i && (#[trigger] swept_sphere_triangle_model(
                        sphere@,
                        velocity@,
                        self@[k],
                    )).collided && best@ == swept_sphere_triangle_model(
                        sphere@,
                        velocity@,
                        self@[k],
                    )),
                forall|k: int|
                    0 <= k < i && (#[trigger] swept_sphere_triangle_model(
                        sphere@,
                        velocity@,
                        self@[k],
                    )).collided ==> fr_le(
                        best@.time,
                        swept_sphere_triangle_model(sphere@, velocity@, self@[k]).time,
                    ),
                forall|k: int|
                    0 <= k < i ==> (#[trigger] swept_sphere_triangle_model(
                        sphere@,
                        velocity@,
                        self@[k],
                    )).time.den > 0,
                !best@.collided ==> best@ == pm_miss(),
            decreases n - i,
        {
            let t = self.get(i);
            let p = sphere.vs_while_moving_triangle(velocity, &t);
            if p.collided && (!best.collided || p.penetration_or_time.lt(
                best.penetration_or_time,
            )) {
                proof {
                    if best@.collided {
                        assert forall|k: int|
                            0 <= k < i && (#[trigger] swept_sphere_triangle_model(
                                sphere@,
                                velocity@,
                                self@[k],
                            )).collided implies fr_le(
                            p@.time,
                            swept_sphere_triangle_model(sphere@, velocity@, self@[k]).time,
                        ) by {
                            crate::frac::lemma_fr_lt_le_trans(
                                p@.time,
                                best@.time,
                                swept_sphere_triangle_model(sphere@, velocity@, self@[k]).time,
                            );
                        }
                    }
                }
                best = p;
            }
            i = i + 1;
        }
        best
    }

    /// Best swept-capsule contact over all triangles.
    #[verifier::rlimit(100)]
    pub fn vs_moving_capsule(&self, capsule: &Capsule, velocity: &Vec3) -> (r: CollisionPacket)
        requires
            self.wf(),
            capsule.wf(),
            velocity.in_range(),
        ensures
            r.valid(),
            r@.collided <==> (exists|i: int|
                0 <= i < self@.len() && (#[trigger] swept_capsule_triangle_model(
                    capsule@,
                    velocity@,
                    self@[i],
                )).collided),
            r@.collided ==> (exists|i: int|
                0 <= i < self@.len() && (#[trigger] swept_capsule_triangle_model(
                    capsule@,
                    velocity@,
                    self@[i],
                )).collided && r@ == swept_capsule_triangle_model(capsule@, velocity@, self@[i])),
            forall|i: int|
                0 <= i < self@.len() && (#[trigger] swept_capsule_triangle_model(
                    capsule@,
                    velocity@,
                    self@[i],
                )).collided ==> fr_le(
                    r@.time,
                    swept_capsule_triangle_model(capsule@, velocity@, self@[i]).time,
                ),
            !r@.collided ==> r@ == pm_miss(),
    {
        let mut best = CollisionPacket::miss();
        let n = self.len();
        let mut i: usize = 0;
        while i < n
            invariant
                i <= n,
                n == self@.len(),
                self.wf(),
                capsule.wf(),
                velocity.in_range(),
                best.valid(),
                best@.collided <==> (exists|k: int|
                    0 <= k < i && (#[trigger] swept_capsule_triangle_model(
                        capsule@,
                        velocity@,
                        self@[k],
                    )).collided),
                best@.collided ==> (exists|k: int|
                    0 <= k < i && (#[trigger] swept_capsule_triangle_model(
                        capsule@,
                        velocity@,
                        self@[k],
                    )).collided && best@ == swept_capsule_triangle_model(
                        capsule@,
                        velocity@,
                        self@[k],
                    )),
                forall|k: int|
                    0 <= k < i && (#[trigger] swept_capsule_triangle_model(
                        capsule@,
                        velocity@,
                        self@[k],
                    )).collided ==> fr_le(
                        best@.time,
                        swept_capsule_triangle_model(capsule@, velocity@, self@[k]).time,
                    ),
                forall|k: int|
                    0 <= k < i ==> (#[trigger] swept_capsule_triangle_model(
                        capsule@,
                        velocity@,
                        self@[k],
                    )).time.den > 0,
                !best@.collided ==> best@ == pm_miss(),
            decreases n - i,
        {
            let t = self.get(i);
            let p = capsule.vs_while_moving_triangle(velocity, &t);
            if p.collided && (!best.collided || p.penetration_or_time.lt(
                best.penetration_or_time,
            )) {
                proof {
                    if best@.collided {
                        assert forall|k: int|
                            0 <= k < i && (#[trigger] swept_capsule_triangle_model(
                                capsule@,
                                velocity@,
                                self@[k],
                            )).collided implies fr_le(
                            p@.time,
                            swept_capsule_triangle_model(capsule@, velocity@, self@[k]).time,
                        ) by {
                            crate::frac::lemma_fr_lt_le_trans(
                                p@.time,
                                best@.time,
                                swept_capsule_triangle_model(capsule@, velocity@, self@[k]).time,
                            );
                        }
                    }
                }
                best = p;
            }
            i = i + 1;
        }
        best
    }
}

impl Sphere {
    /// Best static contact of this sphere over all triangles of a soup;
    /// the soup's aggregation contract applies.
    pub fn vs_triangle_soup(&self, triangle_soup: &TriangleSoup) -> (r: CollisionPacket)
        requires
            triangle_soup.wf(),
            self.center.bounded(0x8000),
            0 < self.radius <= 0x2000,
        ensures
            r.valid(),
            r@.collided <==> (exists|i: int|
                0 <= i < triangle_soup@.len() && (#[trigger] sphere_triangle_model(
                    self@,
                    triangle_soup@[i],
                )).collided),
            r@.collided ==> (exists|i: int|
                0 <= i < triangle_soup@.len() && (#[trigger] sphere_triangle_model(
                    self@,
                    triangle_soup@[i],
                )).collided && r@ == sphere_triangle_model(self@, triangle_soup@[i])),
            forall|i: int|
                0 <= i < triangle_soup@.len() && (#[trigger] sphere_triangle_model(
                    self@,
                    triangle_soup@[i],
                )).collided ==> fr_le(r@.time, sphere_triangle_model(self@, triangle_soup@[i]).time),
            !r@.collided ==> r@ == pm_miss(),
    {
        triangle_soup.vs_sphere(self)
    }

    /// Best swept contact of this sphere over all triangles of a soup;
    /// the soup's aggregation contract applies.
    pub fn vs_while_moving_triangle_soup(&self, velocity: &Vec3, triangle_soup: &TriangleSoup)
        -> (r: CollisionPacket)
        requires
            triangle_soup.wf(),
            self.center.bounded(0x4000),
            0 < self.radius <= 0x2000,
            velocity.bounded(0x2000),
        ensures
            r.valid(),
            r@.collided <==> (exists|i: int|
                0 <= i < triangle_soup@.len() && (#[trigger] swept_sphere_triangle_model(
                    self@,
                    velocity@,
                    triangle_soup@[i],
                )).collided),
            r@.collided ==> (exists|i: int|
                0 <= i < triangle_soup@.len() && (#[trigger] swept_sphere_triangle_model(
                    self@,
                    velocity@,
                    triangle_soup@[i],
                )).collided && r@ == swept_sphere_triangle_model(
                    self@,
                    velocity@,
                    triangle_soup@[i],
                )),
            forall|i: int|
                0 <= i < triangle_soup@.len() && (#[trigger] swept_sphere_triangle_model(
                    self@,
                    velocity@,
                    triangle_soup@[i],
                )).collided ==> fr_le(
                    r@.time,
                    swept_sphere_triangle_model(self@, velocity@, triangle_soup@[i]).time,
                ),
            !r@.collided ==> r@ == pm_miss(),
    {
        triangle_soup.vs_moving_sphere(self, velocity)
    }
}

impl Capsule {
    /// Best static contact of this capsule over all triangles of a soup;
    /// the soup's aggregation contract applies.
    pub fn vs_triangle_soup(&self, triangle_soup: &TriangleSoup) -> (r: CollisionPacket)
        requires
            triangle_soup.wf(),
            self.base.bounded(0x4000),
            self.tip.bounded(0x4000),
            0 < self.radius <= 0x2000,
        ensures
            r.valid(),
            r@.collided <==> (exists|i: int|
                0 <= i < triangle_soup@.len() && (#[trigger] capsule_triangle_model(
                    self@,
                    triangle_soup@[i],
                )).collided),
            r@.collided ==> (exists|i: int|
                0 <= i < triangle_soup@.len() && (#[trigger] capsule_triangle_model(
                    self@,
                    triangle_soup@[i],
                )).collided && r@ == capsule_triangle_model(self@, triangle_soup@[i])),
            forall|i: int|
                0 <= i < triangle_soup@.len() && (#[trigger] capsule_triangle_model(
                    self@,
                    triangle_soup@[i],
                )).collided ==> fr_le(
                    r@.time,
                    capsule_triangle_model(self@, triangle_soup@[i]).time,
                ),
            !r@.collided ==> r@ == pm_miss(),
    {
        triangle_soup.vs_capsule(self)
    }

    /// Best swept contact of this capsule over all triangles of a soup;
    /// the soup's aggregation contract applies.
    pub fn vs_while_moving_triangle_soup(&self, velocity: &Vec3, triangle_soup: &TriangleSoup)
        -> (r: CollisionPacket)
        requires
            triangle_soup.wf(),
            self.wf(),
            velocity.in_range(),
        ensures
            r.valid(),
            r@.collided <==> (exists|i: int|
                0 <= i < triangle_soup@.len() && (#[trigger] swept_capsule_triangle_model(
                    self@,
                    velocity@,
                    triangle_soup@[i],
                )).collided),
            r@.collided ==> (exists|i: int|
                0 <= i < triangle_soup@.len() && (#[trigger] swept_capsule_triangle_model(
                    self@,
                    velocity@,
                    triangle_soup@[i],
                )).collided && r@ == swept_capsule_triangle_model(
                    self@,
                    velocity@,
                    triangle_soup@[i],
                )),
            forall|i: int|
                0 <= i < triangle_soup@.len() && (#[trigger] swept_capsule_triangle_model(
                    self@,
                    velocity@,
                    triangle_soup@[i],
                )).collided ==> fr_le(
                    r@.time,
                    swept_capsule_triangle_model(self@, velocity@, triangle_soup@[i]).time,
                ),
            !r@.collided ==> r@ == pm_miss(),
    {
        triangle_soup.vs_moving_capsule(self, velocity)
    }

    /// Cast a ray at this capsule (the ray test from the capsule's side).
    pub fn vs_ray(&self, ray: &Ray) -> (r: CollisionPacket)
        requires
            ray.start.bounded(0x4000),
            ray.direction.bounded(0x2000),
            self.base.bounded(0x4000),
            self.tip.bounded(0x4000),
            0 < self.radius <= 0x2000,
        ensures
            r@ == crate::ray::ray_capsule_model(ray@, self@),
            r.valid(),
    {
        ray.vs_capsule(self)
    }
}

impl Ray {
    /// Best contact of this ray over all triangles of a soup; the soup's
    /// aggregation contract applies.
    pub fn vs_triangle_soup(&self, triangle_soup: &TriangleSoup) -> (r: CollisionPacket)
        requires
            triangle_soup.wf(),
            self.start.bounded(0x4000),
            self.direction.bounded(0x2000),
        ensures
            r.valid(),
            r@.collided <==> (exists|i: int|
                0 <= i < triangle_soup@.len() && (#[trigger] ray_triangle_model(
                    self@,
                    triangle_soup@[i],
                )).collided),
            r@.collided ==> (exists|i: int|
                0 <= i < triangle_soup@.len() && (#[trigger] ray_triangle_model(
                    self@,
                    triangle_soup@[i],
                )).collided && r@ == ray_triangle_model(self@, triangle_soup@[i])),
            forall|i: int|
                0 <= i < triangle_soup@.len() && (#[trigger] ray_triangle_model(
                    self@,
                    triangle_soup@[i],
                )).collided ==> fr_le(r@.time, ray_triangle_model(self@, triangle_soup@[i]).time),
            !r@.collided ==> r@ == pm_miss(),
    {
        triangle_soup.vs_ray(self)
    }
}

} // verus!

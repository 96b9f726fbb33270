//! Triangle-side entry points: each forwards to the matching query of the
//! other shape, so a triangle can be queried from either side.

use vstd::prelude::*;
use crate::capsule::swept_capsule_triangle_model;
use crate::packet::CollisionPacket;
use crate::ray::ray_triangle_model;
use crate::shapes::{Capsule, Ray, Sphere, Triangle};
use crate::sphere::{sphere_triangle_model, swept_sphere_triangle_model};
use crate::vec3::Vec3;

verus! {

impl Triangle {
    /// Static overlap test against a sphere.  See `sphere_triangle_model`.
    pub fn vs_sphere(&self, sphere: &Sphere) -> (r: CollisionPacket)
        requires
            sphere.center.bounded(0x8000),
            0 < sphere.radius <= 0x2000,
            self.vertex_0.bounded(0x4000),
            self.vertex_1.bounded(0x4000),
            self.vertex_2.bounded(0x4000),
        ensures
            r@ == sphere_triangle_model(sphere@, self@),
            r.valid(),
    {
        sphere.vs_triangle(self)
    }

    /// Cast a ray at this triangle.  See `ray_triangle_model`.
    pub fn vs_ray(&self, ray: &Ray) -> (r: CollisionPacket)
        requires
            ray.start.bounded(0x4000),
            ray.direction.bounded(0x2000),
            self.vertex_0.bounded(0x4000),
            self.vertex_1.bounded(0x4000),
            self.vertex_2.bounded(0x4000),
        ensures
            r@ == ray_triangle_model(ray@, self@),
            r.valid(),
    {
        ray.vs_triangle(self)
    }

    /// Sweep a sphere along `velocity` against this triangle.  See
    /// `swept_sphere_triangle_model`.
    pub fn vs_moving_sphere(&self, sphere: &Sphere, velocity: &Vec3) -> (r: CollisionPacket)
        requires
            sphere.center.bounded(0x4000),
            0 < sphere.radius <= 0x2000,
            velocity.bounded(0x2000),
            self.vertex_0.bounded(0x4000),
            self.vertex_1.bounded(0x4000),
            self.vertex_2.bounded(0x4000),
        ensures
            r@ == swept_sphere_triangle_model(sphere@, velocity@, self@),
            r.valid(),
    {
        sphere.vs_while_moving_triangle(velocity, self)
    }

    /// Sweep a capsule along `velocity` against this triangle.  See
    /// `swept_capsule_triangle_model`.
    pub fn vs_moving_capsule(&self, capsule: &Capsule, velocity: &Vec3) -> (r: CollisionPacket)
        requires
            capsule.wf(),
            velocity.in_range(),
            self.wf(),
        ensures
            r@ == swept_capsule_triangle_model(capsule@, velocity@, self@),
            r.valid(),
    {
        capsule.vs_while_moving_triangle(velocity, self)
    }
}

} // verus!

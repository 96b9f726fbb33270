//! A registry of collision shapes with their optional velocities and
//! layer tags, owned by the composition root.

use vstd::prelude::*;
use crate::shapes::{Capsule, Sphere, Triangle};
use crate::vec3::Vec3;

verus! {

/// A shape registered with the world: the shape itself, an optional
/// per-tick velocity for moving shapes, and a layer tag.
pub enum CollisionShapes {
    Sphere(Sphere, Option<Vec3>, u32),
    Capsule(Capsule, Option<Vec3>, u32),
    TriangleSoup(Triangle, u32),
}

/// The collection of registered shapes.
pub struct CollisionWorld {
    pub collision_shapes: Vec<CollisionShapes>,
}

impl CollisionWorld {
    /// An empty world.
    pub fn new() -> (r: CollisionWorld)
        ensures
            r.collision_shapes@.len() == 0,
    {
        CollisionWorld { collision_shapes: Vec::new() }
    }

    /// Register a shape; existing entries are untouched.
    pub fn add_shape(&mut self, collision_shape: CollisionShapes, layer: u32)
        ensures
            final(self).collision_shapes@ == old(self).collision_shapes@.push(collision_shape),
    {
        self.collision_shapes.push(collision_shape);
    }
}

} // verus!

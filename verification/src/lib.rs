//! Narrow-phase collision detection over exact fixed-point coordinates.
//!
//! Shapes (spheres, capsules, triangles, triangle soups, rays) live on an
//! integer grid: every coordinate is a signed number of grid units, bounded
//! so that all intermediate products fit in 128-bit integers.  Every
//! intersection predicate (overlap, discriminant sign, barycentric
//! containment) is therefore decided exactly, and the parametric
//! time-of-impact of a ray or swept shape is an exact rational number.
//! Square roots of integers are taken as verified floor square roots, so
//! every reported penetration depth and contact point is pinned down to a
//! closed formula over the inputs.

pub mod capsule;
pub mod closest;
pub mod frac;
pub mod packet;
pub mod ray;
pub mod response;
pub mod shapes;
pub mod soup;
pub mod sphere;
pub mod triangle;
pub mod input_state;
pub mod intmath;
pub mod laws;
pub mod vec3;
pub mod world;

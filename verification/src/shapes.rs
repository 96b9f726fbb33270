//! The primitive shapes: sphere, capsule, triangle, triangle soup, ray.
//!
//! All coordinates are grid units (see `vec3`).  A shape is well formed
//! when its coordinates lie within `COORD_MAX` of the origin and its radius
//! is a positive number of units no larger than `COORD_MAX`; the collision
//! queries require well-formed inputs so that all of their intermediate
//! arithmetic stays exact.

use vstd::prelude::*;
use crate::frac::{FracVec, FV3};
use crate::intmath::div_floor;
use crate::vec3::{v3_add, v3_sub, Vec3, COORD_MAX, V3};

verus! {

/// Mathematical view of a sphere.
pub ghost struct SphereModel {
    pub center: V3,
    pub radius: int,
}

/// A sphere: center and positive radius.
#[derive(Clone, Copy, Debug, PartialEq, Eq, Structural)]
pub struct Sphere {
    pub center: Vec3,
    pub radius: i64,
}

impl View for Sphere {
    type V = SphereModel;

    open spec fn view(&self) -> SphereModel {
        SphereModel { center: self.center@, radius: self.radius as int }
    }
}

impl Sphere {
    /// Well-formed: coordinates in range, radius positive and in range.
    pub open spec fn wf(self) -> bool {
        self.center.in_range() && 0 < self.radius <= COORD_MAX
    }

    pub fn new(center: Vec3, radius: i64) -> (r: Sphere)
        ensures
            r@ == (SphereModel { center: center@, radius: radius as int }),
    {
        Sphere { center, radius }
    }

    pub fn get_center(&self) -> (r: Vec3)
        ensures
            r@ == self@.center,
    {
        self.center
    }

    pub fn get_radius(&self) -> (r: i64)
        ensures
            r as int == self@.radius,
    {
        self.radius
    }

    /// Move the sphere, keeping its radius.
    pub fn set_center(&mut self, center: Vec3)
        ensures
            final(self)@ == (SphereModel { center: center@, radius: old(self)@.radius }),
    {
        self.center = center;
    }
}

/// Mathematical view of a capsule.
pub ghost struct CapsuleModel {
    pub base: V3,
    pub tip: V3,
    pub radius: int,
}

/// A capsule: the two outer ends of its axis and a positive radius.  When
/// `base == tip` it behaves as a sphere of that radius.
#[derive(Clone, Copy, Debug, PartialEq, Eq, Structural)]
pub struct Capsule {
    pub base: Vec3,
    pub tip: Vec3,
    pub radius: i64,
}

impl View for Capsule {
    type V = CapsuleModel;

    open spec fn view(&self) -> CapsuleModel {
        CapsuleModel { base: self.base@, tip: self.tip@, radius: self.radius as int }
    }
}

impl Capsule {
    /// Well-formed: coordinates in range, radius positive and in range.
    pub open spec fn wf(self) -> bool {
        self.base.in_range() && self.tip.in_range() && 0 < self.radius <= COORD_MAX
    }

    pub fn new(base: Vec3, tip: Vec3, radius: i64) -> (r: Capsule)
        ensures
            r@ == (CapsuleModel { base: base@, tip: tip@, radius: radius as int }),
    {
        Capsule { base, tip, radius }
    }

    pub fn get_base(&self) -> (r: Vec3)
        ensures
            r@ == self@.base,
    {
        self.base
    }

    pub fn get_tip(&self) -> (r: Vec3)
        ensures
            r@ == self@.tip,
    {
        self.tip
    }

    pub fn get_radius(&self) -> (r: i64)
        ensures
            r as int == self@.radius,
    {
        self.radius
    }

    /// The midpoint of the axis, exactly, over denominator 2.
    pub fn get_center(&self) -> (r: FracVec)
        requires
            self.wf(),
        ensures
            r@ == (FV3 { num: v3_add(self@.base, self@.tip), den: 2 }),
            r.valid(),
    {
        FracVec {
            x: self.base.x as i128 + self.tip.x as i128,
            y: self.base.y as i128 + self.tip.y as i128,
            z: self.base.z as i128 + self.tip.z as i128,
            den: 2,
        }
    }

    /// Translate both ends so that the axis midpoint, rounded to the grid,
    /// lands on `center`; length and orientation are preserved.
    pub fn set_center(&mut self, center: Vec3)
        requires
            old(self).wf(),
            center.in_range(),
        ensures
            v3_sub(final(self)@.tip, final(self)@.base) == v3_sub(old(self)@.tip, old(self)@.base),
            final(self)@.radius == old(self)@.radius,
            final(self)@.base == v3_add(old(self)@.base, translation_to(old(self)@, center@)),
            final(self)@.tip == v3_add(old(self)@.tip, translation_to(old(self)@, center@)),
    {
        let mx = div_floor(self.base.x as i128 + self.tip.x as i128, 2) as i64;
        let my = div_floor(self.base.y as i128 + self.tip.y as i128, 2) as i64;
        let mz = div_floor(self.base.z as i128 + self.tip.z as i128, 2) as i64;
        let tx = center.x - mx;
        let ty = center.y - my;
        let tz = center.z - mz;
        self.base = Vec3 { x: self.base.x + tx, y: self.base.y + ty, z: self.base.z + tz };
        self.tip = Vec3 { x: self.tip.x + tx, y: self.tip.y + ty, z: self.tip.z + tz };
    }
}

/// Floor length of a capsule's axis.
pub open spec fn cap_axis_len(c: CapsuleModel) -> int {
    crate::intmath::sqrt_floor(crate::vec3::v3_norm2(v3_sub(c.tip, c.base)))
}

/// The grid offset from each outer end to the center of its cap sphere:
/// the axis direction scaled by the radius, divided (componentwise, floor)
/// by the floor axis length.  Zero for a degenerate axis.
pub open spec fn cap_inner_offset(c: CapsuleModel) -> V3 {
    let u = v3_sub(c.tip, c.base);
    let len = cap_axis_len(c);
    if len == 0 {
        V3 { x: 0, y: 0, z: 0 }
    } else {
        V3 { x: u.x * c.radius / len, y: u.y * c.radius / len, z: u.z * c.radius / len }
    }
}

/// Center of the cap sphere at the base end.
pub open spec fn cap_inner_a(c: CapsuleModel) -> V3 {
    v3_add(c.base, cap_inner_offset(c))
}

/// Center of the cap sphere at the tip end.
pub open spec fn cap_inner_b(c: CapsuleModel) -> V3 {
    v3_sub(c.tip, cap_inner_offset(c))
}

impl Capsule {
    /// The two cap-sphere centers: the outer ends pulled inward by the
    /// radius along the axis, rounded to the grid.  For a degenerate axis
    /// (`base == tip`) both are `base`.
    pub fn inner_segment(&self) -> (r: (Vec3, Vec3))
        requires
            self.base.bounded(0x4000),
            self.tip.bounded(0x4000),
            0 < self.radius <= 0x2000,
        ensures
            r.0@ == cap_inner_a(self@),
            r.1@ == cap_inner_b(self@),
            r.0.bounded(0x6000),
            r.1.bounded(0x6000),
    {
        let u = self.tip.wide().sub(self.base.wide());
        let u2 = u.norm2(Ghost(0x8000int));
        proof {
            crate::vec3::lemma_dot_bound(u@, u@, 0x8000, 0x8000);
        }
        let lu = crate::intmath::isqrt(u2 as u128);
        proof {
            assert((lu as int) * (lu as int) <= u2 as int);
            assert(lu as int <= 0x1_0000_0000) by (nonlinear_arith)
                requires
                    0 <= lu as int,
                    (lu as int) * (lu as int) <= u2 as int,
                    u2 as int <= 0xC000_0000,
            ;
        }
        let len = lu as i128;
        if len == 0 {
            return (self.base, self.tip);
        }
        proof {
            crate::intmath::lemma_sqrt_floor(u2 as int);
            crate::vec3::lemma_norm2_nonneg(u@);
            crate::vec3::lemma_mul_bound(u@.x, self@.radius, 0x8000, 0x2000);
            crate::vec3::lemma_mul_bound(u@.y, self@.radius, 0x8000, 0x2000);
            crate::vec3::lemma_mul_bound(u@.z, self@.radius, 0x8000, 0x2000);
            lemma_axis_component(u@.x, u2 as int, len as int, self@.radius);
            lemma_axis_component(u@.y, u2 as int, len as int, self@.radius);
            lemma_axis_component(u@.z, u2 as int, len as int, self@.radius);
        }
        let ox = div_floor(u.x * self.radius as i128, len) as i64;
        let oy = div_floor(u.y * self.radius as i128, len) as i64;
        let oz = div_floor(u.z * self.radius as i128, len) as i64;
        let a = Vec3 { x: self.base.x + ox, y: self.base.y + oy, z: self.base.z + oz };
        let b = Vec3 { x: self.tip.x - ox, y: self.tip.y - oy, z: self.tip.z - oz };
        (a, b)
    }
}

/// One axis of the inner-offset bound: a component of the axis is at most
/// the floor axis length, so the scaled, floored component offset stays
/// within the radius.
proof fn lemma_axis_component(ux: int, u2: int, len: int, radius: int)
    requires
        0 < len,
        len * len <= u2,
        u2 < (len + 1) * (len + 1),
        ux * ux <= u2,
        0 < radius,
    ensures
        -radius <= ux * radius / len <= radius,
{
    assert(-len <= ux <= len) by (nonlinear_arith)
        requires
            0 < len,
            ux * ux <= u2,
            u2 < (len + 1) * (len + 1),
    ;
    assert(-(radius * len) <= ux * radius <= radius * len) by (nonlinear_arith)
        requires
            -len <= ux <= len,
            0 < radius,
    ;
    vstd::arithmetic::div_mod::lemma_div_is_ordered(-(radius * len), ux * radius, len);
    vstd::arithmetic::div_mod::lemma_div_is_ordered(ux * radius, radius * len, len);
    vstd::arithmetic::div_mod::lemma_div_multiples_vanish(radius, len);
    vstd::arithmetic::div_mod::lemma_div_multiples_vanish(-radius, len);
    assert(radius * len == len * radius && -(radius * len) == len * -radius) by (nonlinear_arith);
}

/// The translation that carries the grid-rounded midpoint of a capsule's
/// axis onto `center`.
pub open spec fn translation_to(c: CapsuleModel, center: V3) -> V3 {
    V3 {
        x: center.x - (c.base.x + c.tip.x) / 2,
        y: center.y - (c.base.y + c.tip.y) / 2,
        z: center.z - (c.base.z + c.tip.z) / 2,
    }
}

/// Mathematical view of a triangle.
pub ghost struct TriangleModel {
    pub v0: V3,
    pub v1: V3,
    pub v2: V3,
}

/// A triangle; the winding order determines the outward normal direction
/// `(v1 - v0) x (v2 - v0)`.
#[derive(Clone, Copy, Debug, PartialEq, Eq, Structural)]
pub struct Triangle {
    pub vertex_0: Vec3,
    pub vertex_1: Vec3,
    pub vertex_2: Vec3,
}

impl View for Triangle {
    type V = TriangleModel;

    open spec fn view(&self) -> TriangleModel {
        TriangleModel { v0: self.vertex_0@, v1: self.vertex_1@, v2: self.vertex_2@ }
    }
}

impl Triangle {
    /// Well-formed: all three vertices in range.
    pub open spec fn wf(self) -> bool {
        self.vertex_0.in_range() && self.vertex_1.in_range() && self.vertex_2.in_range()
    }

    pub fn new(vertex_0: Vec3, vertex_1: Vec3, vertex_2: Vec3) -> (r: Triangle)
        ensures
            r@ == (TriangleModel { v0: vertex_0@, v1: vertex_1@, v2: vertex_2@ }),
    {
        Triangle { vertex_0, vertex_1, vertex_2 }
    }
}

/// Mathematical view of a ray.
pub ghost struct RayModel {
    pub start: V3,
    pub dir: V3,
}

/// A ray: start point and direction.  The direction need not be a unit
/// vector; its magnitude scales the parametric time.
#[derive(Clone, Copy, Debug, PartialEq, Eq, Structural)]
pub struct Ray {
    pub start: Vec3,
    pub direction: Vec3,
}

impl View for Ray {
    type V = RayModel;

    open spec fn view(&self) -> RayModel {
        RayModel { start: self.start@, dir: self.direction@ }
    }
}

impl Ray {
    /// Well-formed: start and direction in range.
    pub open spec fn wf(self) -> bool {
        self.start.in_range() && self.direction.in_range()
    }

    pub fn new(start: Vec3, direction: Vec3) -> (r: Ray)
        ensures
            r@ == (RayModel { start: start@, dir: direction@ }),
    {
        Ray { start, direction }
    }

    pub fn get_start(&self) -> (r: Vec3)
        ensures
            r@ == self@.start,
    {
        self.start
    }

    pub fn get_direction(&self) -> (r: Vec3)
        ensures
            r@ == self@.dir,
    {
        self.direction
    }
}

/// An unordered collection of triangles used as static collision geometry.
#[derive(Clone, Debug)]
pub struct TriangleSoup {
    pub triangles: Vec<Triangle>,
}

impl View for TriangleSoup {
    type V = Seq<TriangleModel>;

    open spec fn view(&self) -> Seq<TriangleModel> {
        self.triangles@.map_values(|t: Triangle| t@)
    }
}

impl TriangleSoup {
    /// Well-formed: every triangle in range.
    pub open spec fn wf(self) -> bool {
        forall|i: int| 0 <= i < self.triangles@.len() ==> (#[trigger] self.triangles@[i]).wf()
    }

    pub fn new(triangles: Vec<Triangle>) -> (r: TriangleSoup)
        ensures
            r@ == triangles@.map_values(|t: Triangle| t@),
            r.triangles@ == triangles@,
    {
        TriangleSoup { triangles }
    }

    /// How many triangles the soup holds.
    pub fn len(&self) -> (r: usize)
        ensures
            r == self@.len(),
    {
        self.triangles.len()
    }

    /// The triangle at `i`.
    pub fn get(&self, i: usize) -> (r: Triangle)
        requires
            i < self@.len(),
        ensures
            r@ == self@[i as int],
            self.wf() ==> r.wf(),
    {
        self.triangles[i]
    }
}

} // verus!

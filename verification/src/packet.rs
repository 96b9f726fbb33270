//! The uniform result of every collision query.
//!
//! `penetration_or_time` carries a penetration depth for static overlap
//! tests and a parametric time-of-impact for ray and swept tests, as an
//! exact rational.  When `collided` is false the other fields are
//! placeholders and must not be consumed by the caller.

use vstd::prelude::*;
use crate::frac::{fr_lt, Frac, FracVec, FR, FV3};
use crate::vec3::V3;

verus! {

/// Mathematical view of a collision result.
pub ghost struct PacketModel {
    pub collided: bool,
    pub position: FV3,
    pub normal: FV3,
    pub time: FR,
}

/// The model of a query that reported no contact: zero position, a unit
/// placeholder normal, and a zero scalar.
pub open spec fn pm_miss() -> PacketModel {
    PacketModel {
        collided: false,
        position: FV3 { num: V3 { x: 0, y: 0, z: 0 }, den: 1 },
        normal: FV3 { num: V3 { x: 0, y: 1, z: 0 }, den: 1 },
        time: FR { num: 0, den: 1 },
    }
}

/// Fold step of every aggregation: keep the earlier (smaller scalar) of two
/// results, preferring any hit over a miss.
pub open spec fn pm_better(best: PacketModel, cand: PacketModel) -> PacketModel {
    if !cand.collided {
        best
    } else if !best.collided {
        cand
    } else if fr_lt(cand.time, best.time) {
        cand
    } else {
        best
    }
}

/// A parametric time lies within the current frame's sweep: `0 <= t < 1`.
pub open spec fn fr_in_window(t: FR) -> bool {
    0 <= t.num && t.num < t.den
}

/// Result of a collision query.
#[derive(Clone, Copy, Debug, PartialEq, Eq, Structural)]
pub struct CollisionPacket {
    pub collided: bool,
    pub position: FracVec,
    pub normal: FracVec,
    pub penetration_or_time: Frac,
}

impl View for CollisionPacket {
    type V = PacketModel;

    open spec fn view(&self) -> PacketModel {
        PacketModel {
            collided: self.collided,
            position: self.position@,
            normal: self.normal@,
            time: self.penetration_or_time@,
        }
    }
}

impl CollisionPacket {
    /// Well-formed: the scalar is comparable and the rational points have
    /// positive denominators.
    pub open spec fn valid(self) -> bool {
        self.penetration_or_time.valid() && self.position.valid() && self.normal.valid()
    }

    /// A query result that reports no contact.
    pub fn miss() -> (r: CollisionPacket)
        ensures
            r@ == pm_miss(),
            r.valid(),
    {
        CollisionPacket {
            collided: false,
            position: FracVec::zero(),
            normal: FracVec::unit_y(),
            penetration_or_time: Frac::whole(0),
        }
    }

    /// Keep the earlier of two results, preferring any hit over a miss.
    pub fn keep_best(self, cand: CollisionPacket) -> (r: CollisionPacket)
        requires
            self.valid(),
            cand.valid(),
        ensures
            r@ == pm_better(self@, cand@),
            r.valid(),
    {
        if !cand.collided {
            self
        } else if !self.collided {
            cand
        } else if cand.penetration_or_time.lt(self.penetration_or_time) {
            cand
        } else {
            self
        }
    }

    /// Clear `collided` unless the reported time lies in `[0, 1)`: impacts
    /// beyond this frame's sweep are not collisions yet.
    pub fn gate_window(self) -> (r: CollisionPacket)
        ensures
            r@ == (PacketModel {
                collided: self@.collided && fr_in_window(self@.time),
                ..self@
            }),
            self.valid() ==> r.valid(),
    {
        let ok = 0 <= self.penetration_or_time.num
            && self.penetration_or_time.num < self.penetration_or_time.den;
        CollisionPacket { collided: self.collided && ok, ..self }
    }
}

} // verus!

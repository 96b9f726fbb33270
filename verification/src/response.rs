//! The caller-side collision response: where to move a shape after a
//! swept query.
//!
//! A query that reported no contact yields no correction at all — the
//! placeholder fields of a missed packet can never reach a position
//! update.

use vstd::prelude::*;
use crate::closest::lemma_seg_grid_box_axis;
use crate::intmath::div_floor;
use crate::packet::{fr_in_window, CollisionPacket};
use crate::vec3::{lemma_mul_bound, Vec3, V3};

verus! {

/// The corrected center after a swept hit: the start center advanced by
/// the velocity scaled by the reported time of impact, each coordinate
/// rounded down to the grid.
pub open spec fn corrected_center_of(center: V3, velocity: V3, tn: int, td: int) -> V3 {
    V3 {
        x: center.x + velocity.x * tn / td,
        y: center.y + velocity.y * tn / td,
        z: center.z + velocity.z * tn / td,
    }
}

/// Where to move a shape after a swept query: `None` unless the packet
/// reports a contact whose time lies in this frame's window `[0, 1)`, so
/// a caller can never consume the placeholder fields of a miss.
pub fn corrected_center(center: &Vec3, velocity: &Vec3, packet: &CollisionPacket) -> (r: Option<
    Vec3,
>)
    requires
        center.in_range(),
        velocity.in_range(),
        packet.valid(),
    ensures
        (r is Some) <==> (packet@.collided && fr_in_window(packet@.time)),
        packet@.collided && fr_in_window(packet@.time) ==> r == Some(
            Vec3 {
                x: corrected_center_of(center@, velocity@, packet@.time.num, packet@.time.den).x
                    as i64,
                y: corrected_center_of(center@, velocity@, packet@.time.num, packet@.time.den).y
                    as i64,
                z: corrected_center_of(center@, velocity@, packet@.time.num, packet@.time.den).z
                    as i64,
            },
        ),
{
    let tn = packet.penetration_or_time.num;
    let td = packet.penetration_or_time.den;
    if !(packet.collided && 0 <= tn && tn < td) {
        return None;
    }
    proof {
        lemma_mul_bound(velocity@.x, tn as int, 0x1000int, 0x4000_0000_0000_0000int);
        lemma_mul_bound(velocity@.y, tn as int, 0x1000int, 0x4000_0000_0000_0000int);
        lemma_mul_bound(velocity@.z, tn as int, 0x1000int, 0x4000_0000_0000_0000int);
        lemma_seg_grid_box_axis(0, velocity@.x, tn as int, td as int);
        lemma_seg_grid_box_axis(0, velocity@.y, tn as int, td as int);
        lemma_seg_grid_box_axis(0, velocity@.z, tn as int, td as int);
    }
    let dx = div_floor(velocity.x as i128 * tn, td);
    let dy = div_floor(velocity.y as i128 * tn, td);
    let dz = div_floor(velocity.z as i128 * tn, td);
    Some(
        Vec3 {
            x: center.x + dx as i64,
            y: center.y + dy as i64,
            z: center.z + dz as i64,
        },
    )
}

} // verus!

use vstd::prelude::*;
use crate::params::{PICKUP_DISTANCE, PICKUP_DISTANCE_SQ};

verus! {

/// A point or displacement in world space. Each axis is a fixed-point
/// count of hundredths of a world unit (see the crate documentation).
#[derive(Clone, Copy, PartialEq, Eq, Structural, Debug)]
pub struct Vec3 {
    pub x: i64,
    pub y: i64,
    pub z: i64,
}

/// The mathematical value of a [`Vec3`]: the same coordinates as
/// unbounded integers.
pub ghost struct Vec3Model {
    pub x: int,
    pub y: int,
    pub z: int,
}

impl View for Vec3 {
    type V = Vec3Model;

    open spec fn view(&self) -> Vec3Model {
        Vec3Model { x: self.x as int, y: self.y as int, z: self.z as int }
    }
}

impl Vec3 {
    /// Builds the vector with the given fixed-point coordinates.
    pub fn new(x: i64, y: i64, z: i64) -> (v: Vec3)
        ensures
            v@ == (Vec3Model { x: x as int, y: y as int, z: z as int }),
    {
        Vec3 { x, y, z }
    }
}

/// Squared Euclidean distance between two points.
pub open spec fn dist_sq(a: Vec3Model, b: Vec3Model) -> int {
    (a.x - b.x) * (a.x - b.x) + (a.y - b.y) * (a.y - b.y) + (a.z - b.z) * (a.z - b.z)
}

/// Whether an object at `object` is close enough to a player at `player`
/// to be collected: squared distance strictly below
/// [`PICKUP_DISTANCE_SQ`]. The boundary itself does not collect.
pub open spec fn within_pickup(object: Vec3Model, player: Vec3Model) -> bool {
    dist_sq(object, player) < PICKUP_DISTANCE_SQ as int
}

/// Decides [`within_pickup`] for any two points, without overflow: an
/// axis gap of [`PICKUP_DISTANCE`] or more already rules the pickup out,
/// and below that every square is small.
pub fn is_within_pickup(object: &Vec3, player: &Vec3) -> (r: bool)
    ensures
        r == within_pickup(object@, player@),
{
    let dx: i128 = (object.x as i128) - (player.x as i128);
    let dy: i128 = (object.y as i128) - (player.y as i128);
    let dz: i128 = (object.z as i128) - (player.z as i128);
    let lim: i128 = PICKUP_DISTANCE as i128;
    if dx >= lim || dx <= -lim || dy >= lim || dy <= -lim || dz >= lim || dz <= -lim {
        proof {
            assert(dx * dx + dy * dy + dz * dz >= 10000) by (nonlinear_arith)
                requires
                    dx >= 100 || dx <= -100 || dy >= 100 || dy <= -100 || dz >= 100 || dz
                        <= -100,
            ;
            assert(dist_sq(object@, player@) == dx * dx + dy * dy + dz * dz);
        }
        false
    } else {
        proof {
            assert(0 <= dx * dx < 10000) by (nonlinear_arith)
                requires
                    -100 < dx < 100,
            ;
            assert(0 <= dy * dy < 10000) by (nonlinear_arith)
                requires
                    -100 < dy < 100,
            ;
            assert(0 <= dz * dz < 10000) by (nonlinear_arith)
                requires
                    -100 < dz < 100,
            ;
        }
        let s: i128 = dx * dx + dy * dy + dz * dz;
        proof {
            assert(dist_sq(object@, player@) == s as int);
        }
        s < (PICKUP_DISTANCE_SQ as i128)
    }
}

} // verus!

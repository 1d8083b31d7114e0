//! The avatar's pose: a position in fixed-point world units and a yaw in
//! degrees.  The executor reads and mutates one pose in place each tick.

use vstd::prelude::*;

use crate::cardinal::yaw_in_range;

verus! {

/// Positions the library's arithmetic accepts; generous headroom below the
/// width of the machine integers keeps every per-tick computation in bounds.
pub const WORLD_LIMIT: i64 = 1_000_000_000_000;

/// Mathematical model of a pose.
pub struct PoseV {
    pub x: int,
    pub y: int,
    pub z: int,
    pub yaw: int,
}

/// The avatar's pose.  `x`, `y`, `z` are fixed-point world units; `yaw` is
/// the rotation about the vertical axis in degrees, kept in (-180, 180].
#[derive(Clone, Copy, Debug, PartialEq, Eq, Structural)]
pub struct Pose {
    pub x: i64,
    pub y: i64,
    pub z: i64,
    pub yaw_degrees: i32,
}

impl View for Pose {
    type V = PoseV;

    open spec fn view(&self) -> PoseV {
        PoseV { x: self.x as int, y: self.y as int, z: self.z as int, yaw: self.yaw_degrees as int }
    }
}

/// A pose is well formed when its yaw is normalized.
pub open spec fn wf_pose(p: PoseV) -> bool {
    yaw_in_range(p.yaw)
}

/// Machine bound on positions, required wherever a tick may move the pose.
pub open spec fn pose_in_world(p: PoseV) -> bool {
    &&& -WORLD_LIMIT <= p.x <= WORLD_LIMIT
    &&& -WORLD_LIMIT <= p.y <= WORLD_LIMIT
    &&& -WORLD_LIMIT <= p.z <= WORLD_LIMIT
}

} // verus!

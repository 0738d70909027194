//! Snapshots of an entity's kinematic state.

use vstd::prelude::*;
use crate::fixed::Fixed;
use crate::vector::Vec3;

verus! {

/// The direction an entity faces, in radians.
#[derive(Clone, Copy, Debug, PartialEq, Eq, Structural)]
pub struct Orientation {
    pub yaw: Fixed,
    pub pitch: Fixed,
}

/// Position, velocity and orientation of an entity at one instant.
#[derive(Clone, Copy, Debug, PartialEq, Eq, Structural)]
pub struct Frame {
    pub position: Vec3,
    pub velocity: Vec3,
    pub orientation: Orientation,
}

} // verus!

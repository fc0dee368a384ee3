//! Logical joint sites and rotation axes.

use vstd::prelude::*;

verus! {

/// A logical joint site of the robot, mirrored left and right.
#[derive(Debug, Clone, Copy, PartialEq, Eq, PartialOrd, Structural, Hash)]
pub enum Joint {
    LeftShoulder,
    LeftElbow,
    LeftGripper,
    RightShoulder,
    RightElbow,
    RightGripper,
    LeftHip,
    LeftKnee,
    LeftAnkle,
    RightHip,
    RightKnee,
    RightAnkle,
}

/// A rotation axis of a joint. Grippers have none.
#[derive(Debug, Clone, Copy, PartialEq, Eq, PartialOrd, Structural, Hash)]
pub enum Axis {
    Pitch,
    Yaw,
    Roll,
}

/// One degree of freedom: a joint together with the axis it turns about,
/// or with no axis for a joint that has only one motion.
#[derive(Debug, Clone, Copy, PartialEq, Eq, Hash)]
pub struct Dof {
    pub joint: Joint,
    pub axis: Option<Axis>,
}

impl Dof {
    /// The degree of freedom of `joint` about `axis`.
    pub fn new(joint: Joint, axis: Option<Axis>) -> (dof: Dof)
        ensures
            dof.joint == joint,
            dof.axis == axis,
    {
        Dof { joint, axis }
    }
}

/// Whether two optional axes are the same.
pub fn same_axis(a: Option<Axis>, b: Option<Axis>) -> (same: bool)
    ensures
        same == (a == b),
{
    match (a, b) {
        (None, None) => true,
        (Some(x), Some(y)) => x == y,
        _ => false,
    }
}

} // verus!

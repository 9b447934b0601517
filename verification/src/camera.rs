use vstd::prelude::*;

use crate::math::Vec3;

verus! {

/// The camera's horizontal frame, supplied read-only each tick by the
/// camera-follow collaborator. Both vectors are unit directions, so every
/// component lies within one world unit (1000 milli-units).
#[derive(Clone, Copy, Debug, PartialEq, Eq, Structural)]
pub struct CameraOrientation {
    /// Unit vector pointing where the camera looks, projected to the plane.
    pub forward: Vec3,
    /// Unit vector pointing to the camera's right.
    pub right: Vec3,
}

impl CameraOrientation {
    /// Both direction vectors stay within the unit range.
    pub open spec fn wf(self) -> bool {
        &&& self.forward.in_unit_range()
        &&& self.right.in_unit_range()
    }
}

} // verus!

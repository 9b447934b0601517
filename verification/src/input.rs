use vstd::prelude::*;

use crate::math::Vec2;

verus! {

/// One tick's worth of control input, produced once per tick by whatever
/// device layer is active and read-only thereafter. Movement components are
/// normalized to one world unit (1000 milli-units); the jump and dash flags
/// are edge-triggered: true only on the tick the action starts.
#[derive(Clone, Copy, Debug, PartialEq, Eq, Structural)]
pub struct Inputs {
    /// Requested planar movement: `x` strafes along the camera's right
    /// direction, `y` runs along its forward direction.
    pub player_movement: Vec2,
    /// Requested camera-look movement; consumed by the camera collaborator,
    /// never by the controllers here.
    pub camera_movement: Vec2,
    /// True only on the tick a jump was requested.
    pub jump_triggered: bool,
    /// True only on the tick a dash was requested.
    pub dash_triggered: bool,
}

impl Inputs {
    /// The neutral snapshot: no movement, no triggers.
    pub fn default() -> (inputs: Inputs)
        ensures
            inputs == (Inputs {
                player_movement: Vec2 { x: 0, y: 0 },
                camera_movement: Vec2 { x: 0, y: 0 },
                jump_triggered: false,
                dash_triggered: false,
            }),
    {
        Inputs {
            player_movement: Vec2 { x: 0, y: 0 },
            camera_movement: Vec2 { x: 0, y: 0 },
            jump_triggered: false,
            dash_triggered: false,
        }
    }

    /// Movement input within the normalized range.
    pub open spec fn wf(self) -> bool {
        self.player_movement.in_unit_range()
    }
}

} // verus!

//! The movement command record exchanged between an operator and the
//! vehicle, and the canonical safety-stop value.

use vstd::prelude::*;

verus! {

/// Fixed-point units in one full-scale axis deflection.  An axis value of
/// `AXIS_FULL_SCALE` means "full speed forward", `-AXIS_FULL_SCALE` "full
/// speed backward"; values outside that range can arrive over the wire and
/// are clamped by the drive kinematics, never at decode time.
pub const AXIS_FULL_SCALE: i32 = 1000;

/// A desired planar velocity plus yaw rate.
///
/// Each axis is a fixed-point value in thousandths of full scale, nominally
/// within `[-AXIS_FULL_SCALE, AXIS_FULL_SCALE]` but not enforced here.
/// Immutable once constructed and copied by value between components.
#[derive(Clone, Copy, Debug, PartialEq, Eq, Structural)]
pub struct Move {
    /// Sideways translation component.
    pub translate_x: i32,
    /// Forward translation component.
    pub translate_y: i32,
    /// Yaw rate component.
    pub rotate: i32,
}

impl Move {
    /// True of the canonical stop command and of no other value.
    pub open spec fn is_stop(self) -> bool {
        self.translate_x == 0 && self.translate_y == 0 && self.rotate == 0
    }

    /// The canonical stop command: no translation, no rotation.  Substituted
    /// by the control loop whenever no operator input arrives in time.
    pub fn stop() -> (m: Move)
        ensures
            m.is_stop(),
    {
        Move { translate_x: 0, translate_y: 0, rotate: 0 }
    }
}

/// Telemetry record sent back from the vehicle.  The wire protocol reserves
/// the name; no readings are defined yet, so the record carries no fields.
#[derive(Clone, Copy, Debug, PartialEq, Eq, Structural)]
pub struct SensorReading {}

} // verus!

//! Holonomic drive kinematics: dead-zone filtering, the four-wheel mix, and
//! clamping of every wheel speed to full scale.

use vstd::prelude::*;
use crate::command::{Move, AXIS_FULL_SCALE};

verus! {

/// Magnitude of a value.
pub open spec fn mag(v: int) -> int {
    if v < 0 {
        -v
    } else {
        v
    }
}

/// Dead-zone filter: an axis whose magnitude lies below the zone's magnitude
/// is forced to zero; every other axis value passes through unchanged.
pub open spec fn spec_deadzone(v: int, zone: int) -> int {
    if mag(v) < mag(zone) {
        0
    } else {
        v
    }
}

/// Clamp to `[-AXIS_FULL_SCALE, AXIS_FULL_SCALE]`.
pub open spec fn spec_clamp(v: int) -> int {
    if v < -(AXIS_FULL_SCALE as int) {
        -(AXIS_FULL_SCALE as int)
    } else if v > AXIS_FULL_SCALE as int {
        AXIS_FULL_SCALE as int
    } else {
        v
    }
}

/// Front-left wheel speed for a command, after dead-zone filtering each axis
/// independently and clamping the mix.
pub open spec fn spec_front_left(m: Move, zone: int) -> int {
    spec_clamp(
        spec_deadzone(m.translate_y as int, zone) + spec_deadzone(m.translate_x as int, zone)
            + spec_deadzone(m.rotate as int, zone),
    )
}

/// Front-right wheel speed, as [`spec_front_left`].
pub open spec fn spec_front_right(m: Move, zone: int) -> int {
    spec_clamp(
        spec_deadzone(m.translate_y as int, zone) - spec_deadzone(m.translate_x as int, zone)
            - spec_deadzone(m.rotate as int, zone),
    )
}

/// Back-left wheel speed, as [`spec_front_left`].
pub open spec fn spec_back_left(m: Move, zone: int) -> int {
    spec_clamp(
        spec_deadzone(m.translate_y as int, zone) - spec_deadzone(m.translate_x as int, zone)
            + spec_deadzone(m.rotate as int, zone),
    )
}

/// Back-right wheel speed, as [`spec_front_left`].
pub open spec fn spec_back_right(m: Move, zone: int) -> int {
    spec_clamp(
        spec_deadzone(m.translate_y as int, zone) + spec_deadzone(m.translate_x as int, zone)
            - spec_deadzone(m.rotate as int, zone),
    )
}

/// One throttle per wheel, before the fixed polarity correction for the
/// mounting orientation of the left side.  Recomputed every control-loop
/// tick; each field lies within full scale.
#[derive(Clone, Copy, Debug, PartialEq, Eq, Structural)]
pub struct WheelSpeeds {
    pub front_left: i32,
    pub front_right: i32,
    pub back_left: i32,
    pub back_right: i32,
}

impl WheelSpeeds {
    /// Every wheel speed lies in `[-AXIS_FULL_SCALE, AXIS_FULL_SCALE]`.
    pub open spec fn wf(self) -> bool {
        &&& -(AXIS_FULL_SCALE as int) <= self.front_left <= AXIS_FULL_SCALE as int
        &&& -(AXIS_FULL_SCALE as int) <= self.front_right <= AXIS_FULL_SCALE as int
        &&& -(AXIS_FULL_SCALE as int) <= self.back_left <= AXIS_FULL_SCALE as int
        &&& -(AXIS_FULL_SCALE as int) <= self.back_right <= AXIS_FULL_SCALE as int
    }

    /// All four wheels commanded to zero throttle.
    pub open spec fn is_stopped(self) -> bool {
        self.front_left == 0 && self.front_right == 0 && self.back_left == 0
            && self.back_right == 0
    }

    /// The speeds that `m` filtered by `zone` mixes to.
    pub open spec fn is_mix_of(self, m: Move, zone: int) -> bool {
        &&& self.front_left as int == spec_front_left(m, zone)
        &&& self.front_right as int == spec_front_right(m, zone)
        &&& self.back_left as int == spec_back_left(m, zone)
        &&& self.back_right as int == spec_back_right(m, zone)
    }

    /// Zero throttle on all four wheels.
    pub fn stopped() -> (w: WheelSpeeds)
        ensures
            w.is_stopped(),
            w.wf(),
    {
        WheelSpeeds { front_left: 0, front_right: 0, back_left: 0, back_right: 0 }
    }

    /// The values to hand to the motors: the left-side wheels are mounted
    /// mirrored, so their throttles are inverted once here.
    pub fn polarity_corrected(&self) -> (t: WheelSpeeds)
        requires
            self.wf(),
        ensures
            t.front_left == -self.front_left,
            t.back_left == -self.back_left,
            t.front_right == self.front_right,
            t.back_right == self.back_right,
            t.wf(),
    {
        WheelSpeeds {
            front_left: -self.front_left,
            front_right: self.front_right,
            back_left: -self.back_left,
            back_right: self.back_right,
        }
    }
}

/// Dead-zone filter one axis, treating the configured zone by magnitude.
pub fn deadzone_filter(v: i32, zone: i32) -> (r: i32)
    ensures
        r as int == spec_deadzone(v as int, zone as int),
{
    let v_mag: i64 = if v >= 0 {
        v as i64
    } else {
        -(v as i64)
    };
    let zone_mag: i64 = if zone >= 0 {
        zone as i64
    } else {
        -(zone as i64)
    };
    if v_mag < zone_mag {
        0
    } else {
        v
    }
}

/// Clamp a mixed wheel speed to full scale.
pub fn clamp_speed(v: i64) -> (r: i32)
    ensures
        r as int == spec_clamp(v as int),
{
    if v < -(AXIS_FULL_SCALE as i64) {
        -AXIS_FULL_SCALE
    } else if v > AXIS_FULL_SCALE as i64 {
        AXIS_FULL_SCALE
    } else {
        v as i32
    }
}

/// Map a movement command to the four wheel speeds: dead-zone filter each of
/// the three axes independently, mix them holonomically, and clamp each
/// wheel to full scale.
pub fn mix(m: &Move, deadzone: i32) -> (w: WheelSpeeds)
    ensures
        w.is_mix_of(*m, deadzone as int),
        w.wf(),
{
    let tx: i64 = deadzone_filter(m.translate_x, deadzone) as i64;
    let ty: i64 = deadzone_filter(m.translate_y, deadzone) as i64;
    let r: i64 = deadzone_filter(m.rotate, deadzone) as i64;
    WheelSpeeds {
        front_left: clamp_speed(ty + tx + r),
        front_right: clamp_speed(ty - tx - r),
        back_left: clamp_speed(ty - tx + r),
        back_right: clamp_speed(ty + tx - r),
    }
}

/// The drive system: the configured dead zone together with the throttle
/// most recently commanded to each wheel.  The binary that owns the real
/// motors forwards `commanded` to the hardware after every call.
pub struct Drive {
    /// Magnitude below which a movement axis is ignored.
    pub deadzone: i32,
    /// The per-wheel throttles most recently commanded.
    pub commanded: WheelSpeeds,
}

impl Drive {
    /// A drive with the given dead zone, with all wheels initially at zero
    /// throttle, as the motors are after being armed.
    pub fn new(deadzone: i32) -> (d: Drive)
        ensures
            d.deadzone == deadzone,
            d.commanded.is_stopped(),
    {
        Drive { deadzone, commanded: WheelSpeeds::stopped() }
    }

    /// One kinematics update: filter, mix and clamp the command, and record
    /// the result as the throttles now commanded to the wheels.
    pub fn main_loop(&mut self, control: Move) -> (w: WheelSpeeds)
        ensures
            w.is_mix_of(control, old(self).deadzone as int),
            w.wf(),
            final(self).commanded == w,
            final(self).deadzone == old(self).deadzone,
    {
        let w = mix(&control, self.deadzone);
        self.commanded = w;
        w
    }

    /// Unconditionally command all four wheels to zero throttle.  Runs
    /// during shutdown, where every exit path must leave the wheels stopped.
    pub fn reset(&mut self)
        ensures
            final(self).commanded.is_stopped(),
            final(self).deadzone == old(self).deadzone,
    {
        self.commanded = WheelSpeeds::stopped();
    }
}

/// Every wheel speed the mix can produce lies in
/// `[-AXIS_FULL_SCALE, AXIS_FULL_SCALE]`, whatever the command and zone.
pub proof fn lemma_speeds_clamped(m: Move, zone: int)
    ensures
        -(AXIS_FULL_SCALE as int) <= spec_front_left(m, zone) <= AXIS_FULL_SCALE as int,
        -(AXIS_FULL_SCALE as int) <= spec_front_right(m, zone) <= AXIS_FULL_SCALE as int,
        -(AXIS_FULL_SCALE as int) <= spec_back_left(m, zone) <= AXIS_FULL_SCALE as int,
        -(AXIS_FULL_SCALE as int) <= spec_back_right(m, zone) <= AXIS_FULL_SCALE as int,
{
}

/// With a zero dead zone the mix reduces to the pure holonomic mix: no axis
/// is filtered, only clamping applies.
pub proof fn lemma_zero_deadzone_is_pure_mix(m: Move)
    ensures
        spec_front_left(m, 0) == spec_clamp(
            m.translate_y + m.translate_x + m.rotate,
        ),
        spec_front_right(m, 0) == spec_clamp(
            m.translate_y - m.translate_x - m.rotate,
        ),
        spec_back_left(m, 0) == spec_clamp(
            m.translate_y - m.translate_x + m.rotate,
        ),
        spec_back_right(m, 0) == spec_clamp(
            m.translate_y + m.translate_x - m.rotate,
        ),
{
}

/// An axis whose magnitude lies below the dead zone contributes exactly
/// zero to all four wheel speeds: the mix equals the mix of the same
/// command with that axis replaced by zero.
pub proof fn lemma_small_axis_contributes_nothing(m: Move, zone: int)
    ensures
        mag(m.translate_x as int) < mag(zone) ==> {
            let z = Move { translate_x: 0, translate_y: m.translate_y, rotate: m.rotate };
            &&& spec_front_left(m, zone) == spec_front_left(z, zone)
            &&& spec_front_right(m, zone) == spec_front_right(z, zone)
            &&& spec_back_left(m, zone) == spec_back_left(z, zone)
            &&& spec_back_right(m, zone) == spec_back_right(z, zone)
        },
        mag(m.translate_y as int) < mag(zone) ==> {
            let z = Move { translate_x: m.translate_x, translate_y: 0, rotate: m.rotate };
            &&& spec_front_left(m, zone) == spec_front_left(z, zone)
            &&& spec_front_right(m, zone) == spec_front_right(z, zone)
            &&& spec_back_left(m, zone) == spec_back_left(z, zone)
            &&& spec_back_right(m, zone) == spec_back_right(z, zone)
        },
        mag(m.rotate as int) < mag(zone) ==> {
            let z = Move { translate_x: m.translate_x, translate_y: m.translate_y, rotate: 0 };
            &&& spec_front_left(m, zone) == spec_front_left(z, zone)
            &&& spec_front_right(m, zone) == spec_front_right(z, zone)
            &&& spec_back_left(m, zone) == spec_back_left(z, zone)
            &&& spec_back_right(m, zone) == spec_back_right(z, zone)
        },
{
}

/// The canonical stop command mixes to zero throttle on all four wheels,
/// whatever the dead zone: this is the safety-stop guarantee.
pub proof fn lemma_stop_mixes_to_zero(m: Move, zone: int)
    requires
        m.is_stop(),
    ensures
        spec_front_left(m, zone) == 0,
        spec_front_right(m, zone) == 0,
        spec_back_left(m, zone) == 0,
        spec_back_right(m, zone) == 0,
{
}

} // verus!

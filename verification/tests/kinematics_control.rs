//! Tests of the drive kinematics and the control loop's tick discipline.

use robot_core::command::{Move, AXIS_FULL_SCALE};
use robot_core::control::{
    control_tick, initialize, poll, supervise_exit, ControlError, ControlEvent, LoopTimer,
    RaceEnd, RunOutcome,
};
use robot_core::kinematics::{clamp_speed, deadzone_filter, mix, Drive, WheelSpeeds};

fn cmd(translate_x: i32, translate_y: i32, rotate: i32) -> Move {
    Move { translate_x, translate_y, rotate }
}

#[test]
fn full_scale_is_a_thousand() {
    assert_eq!(AXIS_FULL_SCALE, 1000);
}

#[test]
fn scenario_full_sideways_translate() {
    // Full positive sideways translate, nothing else, dead zone of 200:
    // the mix before polarity correction.
    let w = mix(&cmd(1000, 0, 0), 200);
    assert_eq!(
        w,
        WheelSpeeds { front_left: 1000, front_right: -1000, back_left: -1000, back_right: 1000 }
    );
}

#[test]
fn scenario_small_translate_filtered_out() {
    // A 50-thousandths deflection lies inside the 200-thousandths dead
    // zone: every wheel stays at zero.
    let w = mix(&cmd(50, 0, 0), 200);
    assert_eq!(
        w,
        WheelSpeeds { front_left: 0, front_right: 0, back_left: 0, back_right: 0 }
    );
}

#[test]
fn zero_deadzone_is_pure_mix() {
    let w = mix(&cmd(100, 200, 300), 0);
    assert_eq!(w.front_left, 600);
    assert_eq!(w.front_right, -200);
    assert_eq!(w.back_left, 400);
    assert_eq!(w.back_right, 0);
}

#[test]
fn outputs_always_clamped() {
    let samples = vec![
        cmd(i32::MAX, i32::MAX, i32::MAX),
        cmd(i32::MIN, i32::MIN, i32::MIN),
        cmd(1000, 1000, 1000),
        cmd(-1000, 2000, -3000),
    ];
    for m in samples {
        for zone in [0, 200, 1000] {
            let w = mix(&m, zone);
            for v in [w.front_left, w.front_right, w.back_left, w.back_right] {
                assert!((-AXIS_FULL_SCALE..=AXIS_FULL_SCALE).contains(&v));
            }
        }
    }
}

#[test]
fn clamp_saturates_at_full_scale() {
    assert_eq!(clamp_speed(3000), 1000);
    assert_eq!(clamp_speed(-3000), -1000);
    assert_eq!(clamp_speed(999), 999);
    assert_eq!(clamp_speed(-1000), -1000);
}

#[test]
fn deadzone_boundary_passes_through() {
    // The filter drops strictly smaller magnitudes only.
    assert_eq!(deadzone_filter(199, 200), 0);
    assert_eq!(deadzone_filter(-199, 200), 0);
    assert_eq!(deadzone_filter(200, 200), 200);
    assert_eq!(deadzone_filter(-200, 200), -200);
}

#[test]
fn deadzone_is_taken_by_magnitude() {
    assert_eq!(deadzone_filter(150, -200), 0);
    assert_eq!(deadzone_filter(250, -200), 250);
}

#[test]
fn polarity_inverts_left_side() {
    let w = WheelSpeeds { front_left: 1000, front_right: -1000, back_left: -250, back_right: 3 };
    let t = w.polarity_corrected();
    assert_eq!(
        t,
        WheelSpeeds { front_left: -1000, front_right: -1000, back_left: 250, back_right: 3 }
    );
}

#[test]
fn drive_starts_and_resets_stopped() {
    let mut d = Drive::new(200);
    assert_eq!(
        d.commanded,
        WheelSpeeds { front_left: 0, front_right: 0, back_left: 0, back_right: 0 }
    );
    d.main_loop(cmd(1000, 0, 0));
    assert_ne!(d.commanded.front_left, 0);
    d.reset();
    assert_eq!(
        d.commanded,
        WheelSpeeds { front_left: 0, front_right: 0, back_left: 0, back_right: 0 }
    );
}

#[test]
fn drive_records_commanded_speeds() {
    let mut d = Drive::new(0);
    let w = d.main_loop(cmd(100, 200, 300));
    assert_eq!(d.commanded, w);
    assert_eq!(w.front_left, 600);
}

#[test]
fn command_tick_applies_the_command() {
    let mut d = Drive::new(200);
    let r = control_tick(&mut d, ControlEvent::Command(cmd(1000, 0, 0)));
    let (active, w) = r.unwrap();
    assert_eq!(active, cmd(1000, 0, 0));
    assert_eq!(w.front_left, 1000);
    assert_eq!(d.commanded, w);
}

#[test]
fn timeout_tick_is_safety_stop() {
    // No command within one period: the active command becomes the
    // canonical stop and every wheel is commanded to zero.
    let mut d = Drive::new(200);
    control_tick(&mut d, ControlEvent::Command(cmd(1000, 500, -500))).unwrap();
    let (active, w) = control_tick(&mut d, ControlEvent::TimedOut).unwrap();
    assert_eq!(active, Move::stop());
    assert_eq!(
        w,
        WheelSpeeds { front_left: 0, front_right: 0, back_left: 0, back_right: 0 }
    );
    assert_eq!(d.commanded, w);
}

#[test]
fn closed_source_is_fatal() {
    let mut d = Drive::new(200);
    let r = control_tick(&mut d, ControlEvent::SourceClosed);
    assert_eq!(r, Err(ControlError::SourceLost));
}

#[test]
fn timer_fires_once_per_period() {
    let mut t = LoopTimer::new(16, 100);
    assert!(!t.due(100));
    assert!(!t.due(115));
    assert!(t.due(116));
    assert!(t.due(200));
    t.rearm(200);
    assert!(!t.due(215));
    assert!(t.due(216));
}

#[test]
fn shutdown_signal_starts_low_and_stays_high() {
    let mut s = initialize();
    assert!(!poll(&s));
    s.observe();
    assert!(poll(&s));
    s.observe();
    assert!(poll(&s));
}

#[test]
fn supervised_exit_stops_the_wheels() {
    let mut d = Drive::new(200);
    d.main_loop(cmd(1000, 0, 0));
    let o = supervise_exit(&mut d, RaceEnd::Signal);
    assert_eq!(o, RunOutcome::SignalShutdown);
    assert_eq!(
        d.commanded,
        WheelSpeeds { front_left: 0, front_right: 0, back_left: 0, back_right: 0 }
    );

    let mut d2 = Drive::new(200);
    d2.main_loop(cmd(0, 1000, 0));
    let o2 = supervise_exit(&mut d2, RaceEnd::LoopError(ControlError::SourceLost));
    assert_eq!(o2, RunOutcome::LoopFailure(ControlError::SourceLost));
    assert_eq!(
        d2.commanded,
        WheelSpeeds { front_left: 0, front_right: 0, back_left: 0, back_right: 0 }
    );
}

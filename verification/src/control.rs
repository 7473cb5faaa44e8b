//! The control loop's per-tick decision, the loop deadline, and the
//! supervised-exit discipline.
//!
//! Each iteration races "next command available" against "deadline
//! reached"; at most one wins.  The winner decides the active command: the
//! arrived command, or the canonical stop if the operator went quiet.  The
//! deadline is then reset unconditionally, so kinematics updates are never
//! further than one period apart.  The binary performs the awaiting; the
//! decisions stand here.

use vstd::prelude::*;
use crate::command::Move;
use crate::kinematics;
use crate::kinematics::{Drive, WheelSpeeds};

verus! {

/// What ended the wait for the next tick.
#[derive(Clone, Copy, Debug, PartialEq, Eq, Structural)]
pub enum ControlEvent {
    /// A command arrived before the deadline.
    Command(Move),
    /// The deadline fired: no operator input within one period.
    TimedOut,
    /// The command source reported that no sender remains.
    SourceClosed,
}

/// Why the control loop stopped.  Any failure here is fatal by design:
/// driving on without a command source is unsafe.
#[derive(Clone, Copy, Debug, PartialEq, Eq, Structural)]
pub enum ControlError {
    /// The command source is unexpectedly gone: no stop command could ever
    /// arrive, so the loop must not continue.
    SourceLost,
}

/// One control-loop iteration after the race is decided.  A command makes
/// itself the active command; a timeout substitutes the canonical stop, so
/// the wheels are commanded to zero; a closed source is fatal and leaves
/// the drive untouched.
pub fn control_tick(drive: &mut Drive, event: ControlEvent) -> (r: Result<
    (Move, WheelSpeeds),
    ControlError,
>)
    ensures
        final(drive).deadzone == old(drive).deadzone,
        match event {
            ControlEvent::Command(m) => r matches Ok((active, w)) && active == m && w.is_mix_of(
                m,
                old(drive).deadzone as int,
            ) && w.wf() && final(drive).commanded == w,
            ControlEvent::TimedOut => r matches Ok((active, w)) && active.is_stop()
                && w.is_stopped() && final(drive).commanded == w,
            ControlEvent::SourceClosed => r == Err::<(Move, WheelSpeeds), ControlError>(
                ControlError::SourceLost,
            ) && final(drive).commanded == old(drive).commanded,
        },
{
    match event {
        ControlEvent::Command(m) => {
            let w = drive.main_loop(m);
            Ok((m, w))
        },
        ControlEvent::TimedOut => {
            let m = Move::stop();
            let w = drive.main_loop(m);
            proof {
                kinematics::lemma_stop_mixes_to_zero(m, old(drive).deadzone as int);
            }
            Ok((m, w))
        },
        ControlEvent::SourceClosed => Err(ControlError::SourceLost),
    }
}

/// The deadline for the next forced tick, in milliseconds of whatever
/// monotonic clock the caller reads.  At most one tick occurs per period,
/// and a tick occurs at least once per period even with no traffic.
pub struct LoopTimer {
    /// The configured minimum time between loop iterations.
    pub period_ms: u64,
    /// When the next forced tick is due.
    pub deadline_ms: u64,
}

impl LoopTimer {
    /// A timer first due one period after `now_ms`.
    pub fn new(period_ms: u64, now_ms: u64) -> (t: LoopTimer)
        requires
            now_ms + period_ms <= u64::MAX,
        ensures
            t.period_ms == period_ms,
            t.deadline_ms == now_ms + period_ms,
    {
        LoopTimer { period_ms, deadline_ms: now_ms + period_ms }
    }

    /// Reset after a tick, whichever branch caused it: the next forced
    /// tick is exactly one period away.
    pub fn rearm(&mut self, now_ms: u64)
        requires
            now_ms + old(self).period_ms <= u64::MAX,
        ensures
            final(self).period_ms == old(self).period_ms,
            final(self).deadline_ms == now_ms + old(self).period_ms,
    {
        self.deadline_ms = now_ms + self.period_ms;
    }

    /// Whether the deadline has been reached.
    pub fn due(&self, now_ms: u64) -> (b: bool)
        ensures
            b == (now_ms >= self.deadline_ms),
    {
        now_ms >= self.deadline_ms
    }
}

/// The process-level shutdown signal source: a single flag, raised when a
/// termination-class signal (interrupt, quit, terminate) is observed, and
/// polled by the shutdown supervisor.  There is one such source for the
/// whole process, never one per resource.
pub struct ShutdownSignal {
    /// Whether a termination-class signal has been observed.
    pub observed: bool,
}

impl ShutdownSignal {
    /// Record that a termination-class signal arrived.  The flag only ever
    /// rises: an observed signal is never forgotten.
    pub fn observe(&mut self)
        ensures
            final(self).observed,
    {
        self.observed = true;
    }
}

/// Install the shutdown signal source.  This happens before any actuator
/// is armed, and no signal has been observed yet.
pub fn initialize() -> (s: ShutdownSignal)
    ensures
        !s.observed,
{
    ShutdownSignal { observed: false }
}

/// Whether the shutdown signal source has seen a termination-class signal.
pub fn poll(s: &ShutdownSignal) -> (b: bool)
    ensures
        b == s.observed,
{
    s.observed
}

/// How the run of the control loop against the signal watcher ended.
#[derive(Clone, Copy, Debug, PartialEq, Eq, Structural)]
pub enum RaceEnd {
    /// A termination signal was observed first.
    Signal,
    /// The control loop exited with this error first.
    LoopError(ControlError),
}

/// The supervised outcome of the whole run.  Neither case is a success:
/// one is an intentional, logged shutdown, the other a failure to
/// propagate; cleanup is identical for both.
#[derive(Clone, Copy, Debug, PartialEq, Eq, Structural)]
pub enum RunOutcome {
    /// A termination signal asked the process to stop.
    SignalShutdown,
    /// The control loop failed and its error is propagated.
    LoopFailure(ControlError),
}

/// Conclude the supervised run: whichever way the race ended, the drive is
/// reset so that every wheel is commanded to zero before the process
/// stops, and the outcome only decides what is logged.
pub fn supervise_exit(drive: &mut Drive, end: RaceEnd) -> (o: RunOutcome)
    ensures
        final(drive).commanded.is_stopped(),
        final(drive).deadzone == old(drive).deadzone,
        o == match end {
            RaceEnd::Signal => RunOutcome::SignalShutdown,
            RaceEnd::LoopError(e) => RunOutcome::LoopFailure(e),
        },
{
    drive.reset();
    match end {
        RaceEnd::Signal => RunOutcome::SignalShutdown,
        RaceEnd::LoopError(e) => RunOutcome::LoopFailure(e),
    }
}

} // verus!

//! The frame-pacing and cancellation state machine that drives the
//! tick loop.
//!
//! A run is `Running` until either a cancellation signal is polled at
//! the top of a tick or the run duration expires at its end; both
//! transition to `Terminating`. One release pass then restores the
//! terminal's resources and reaches `Stopped`, which is terminal: no
//! tick's simulation sequence executes once the machine has left
//! `Running`.
//!
//! The caller owns the clock, the sleep and the terminal: it measures
//! `frame_time_ms` and `elapsed_ms`, sleeps for the returned pacing
//! amount, and performs the resource release when the release pass
//! says so.

use vstd::prelude::*;

verus! {

/// The phase of the tick loop.
#[derive(Clone, Copy, Debug, PartialEq, Eq, Structural)]
pub enum LoopState {
    /// Ticks execute the spawn, kinematics, cull and render sequence.
    Running,
    /// Termination was requested; resources are still held.
    Terminating,
    /// Resources are released; no further tick executes.
    Stopped,
}

/// The transition taken by the cancellation poll at the top of a tick.
pub open spec fn cancel_transition(s: LoopState, cancel_requested: bool) -> LoopState {
    if s is Running && cancel_requested {
        LoopState::Terminating
    } else {
        s
    }
}

/// The transition taken by the duration check at the end of a tick.
pub open spec fn duration_transition(s: LoopState, elapsed_ms: u64, run_duration_ms: u64) -> LoopState {
    if s is Running && elapsed_ms >= run_duration_ms {
        LoopState::Terminating
    } else {
        s
    }
}

/// The transition taken by the release pass.
pub open spec fn release_transition(s: LoopState) -> LoopState {
    if s is Terminating {
        LoopState::Stopped
    } else {
        s
    }
}

/// How long to sleep after a tick's work: the remainder of the frame
/// budget, or nothing when the work already exceeded it.
pub open spec fn sleep_amount(frame_budget_ms: u64, frame_time_ms: u64) -> u64 {
    if frame_time_ms < frame_budget_ms {
        (frame_budget_ms - frame_time_ms) as u64
    } else {
        0u64
    }
}

/// The state machine driving the tick loop, with the run's two pacing
/// parameters.
pub struct FrameScheduler {
    /// The phase the loop is in.
    pub state: LoopState,
    /// Total simulated run time before automatic termination, in
    /// milliseconds.
    pub run_duration_ms: u64,
    /// Target duration of one tick, in milliseconds.
    pub frame_budget_ms: u64,
}

impl FrameScheduler {
    /// A scheduler at the top of its first tick.
    pub fn new(run_duration_ms: u64, frame_budget_ms: u64) -> (s: FrameScheduler)
        ensures
            s.state is Running,
            s.run_duration_ms == run_duration_ms,
            s.frame_budget_ms == frame_budget_ms,
    {
        FrameScheduler { state: LoopState::Running, run_duration_ms, frame_budget_ms }
    }

    /// The cancellation poll at the top of a tick: a pending signal
    /// moves a running loop to `Terminating`. Returns whether the
    /// tick's simulation sequence must run.
    pub fn poll_cancel(&mut self, cancel_requested: bool) -> (run_sim: bool)
        ensures
            final(self).state == cancel_transition(old(self).state, cancel_requested),
            run_sim == (final(self).state is Running),
            final(self).run_duration_ms == old(self).run_duration_ms,
            final(self).frame_budget_ms == old(self).frame_budget_ms,
    {
        if cancel_requested {
            if let LoopState::Running = self.state {
                self.state = LoopState::Terminating;
            }
        }
        if let LoopState::Running = self.state {
            true
        } else {
            false
        }
    }

    /// The end of a tick: returns how long to sleep so that the tick
    /// spans the frame budget, and moves a running loop whose run
    /// duration has elapsed to `Terminating`.
    pub fn end_tick(&mut self, frame_time_ms: u64, elapsed_ms: u64) -> (sleep_ms: u64)
        ensures
            sleep_ms == sleep_amount(old(self).frame_budget_ms, frame_time_ms),
            frame_time_ms + sleep_ms >= old(self).frame_budget_ms,
            final(self).state == duration_transition(
                old(self).state,
                elapsed_ms,
                old(self).run_duration_ms,
            ),
            final(self).run_duration_ms == old(self).run_duration_ms,
            final(self).frame_budget_ms == old(self).frame_budget_ms,
    {
        let sleep_ms: u64 = if frame_time_ms < self.frame_budget_ms {
            self.frame_budget_ms - frame_time_ms
        } else {
            0
        };
        if elapsed_ms >= self.run_duration_ms {
            if let LoopState::Running = self.state {
                self.state = LoopState::Terminating;
            }
        }
        sleep_ms
    }

    /// The release pass: reports whether the caller must release the
    /// terminal's resources now, and if so moves to `Stopped`. The
    /// report comes back `true` at most once per run.
    pub fn release_pass(&mut self) -> (release: bool)
        ensures
            release == (old(self).state is Terminating),
            final(self).state == release_transition(old(self).state),
            final(self).run_duration_ms == old(self).run_duration_ms,
            final(self).frame_budget_ms == old(self).frame_budget_ms,
    {
        if let LoopState::Terminating = self.state {
            self.state = LoopState::Stopped;
            true
        } else {
            false
        }
    }

    /// Whether the loop has stopped for good.
    pub fn is_stopped(&self) -> (b: bool)
        ensures
            b == (self.state is Stopped),
    {
        if let LoopState::Stopped = self.state {
            true
        } else {
            false
        }
    }
}

/// Frame pacing: a tick's work time plus the sleep the scheduler
/// computes for it never undershoots the frame budget.
pub proof fn lemma_frame_pacing(frame_budget_ms: u64, frame_time_ms: u64)
    ensures
        frame_time_ms + sleep_amount(frame_budget_ms, frame_time_ms) >= frame_budget_ms,
{
}

/// Termination: once the run duration has elapsed, the end-of-tick
/// transition leaves no loop `Running`, whatever its state was; the
/// following cancellation poll therefore reports that the simulation
/// sequence must not run, and a running loop's release pass is reached
/// after exactly one more transition.
pub proof fn lemma_termination(
    s: LoopState,
    elapsed_ms: u64,
    run_duration_ms: u64,
    cancel_requested: bool,
)
    requires
        elapsed_ms >= run_duration_ms,
    ensures
        !(duration_transition(s, elapsed_ms, run_duration_ms) is Running),
        !(cancel_transition(
            duration_transition(s, elapsed_ms, run_duration_ms),
            cancel_requested,
        ) is Running),
        s is Running ==> release_transition(
            duration_transition(s, elapsed_ms, run_duration_ms),
        ) is Stopped,
{
}

/// `Stopped` is terminal: no transition leaves it, and the release
/// report never comes back `true` again after the pass that stopped
/// the loop.
pub proof fn lemma_stopped_terminal(
    cancel_requested: bool,
    elapsed_ms: u64,
    run_duration_ms: u64,
)
    ensures
        cancel_transition(LoopState::Stopped, cancel_requested) == LoopState::Stopped,
        duration_transition(LoopState::Stopped, elapsed_ms, run_duration_ms) == LoopState::Stopped,
        release_transition(LoopState::Stopped) == LoopState::Stopped,
        forall|s: LoopState| !(release_transition(s) is Terminating),
{
    assert forall|s: LoopState| !(release_transition(s) is Terminating) by {
        if s is Terminating {
        }
    }
}

} // verus!

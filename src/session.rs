//! Per-frame decisions for one animated identifier.
//!
//! The host keeps, per identifier, a baseline value and the start time of the
//! running session, if any. Each frame it tells the controller whether the
//! observed value differs from the baseline; the controller answers with the
//! [`Frame`] to draw and updates the stored start time. Drawing, requesting the
//! next frame and forgetting the baseline are left to the host.
use vstd::prelude::*;
use crate::state::{run_state_at, AnimationState, Progress, RunState, Timing};

verus! {

/// What the host draws in one frame.
#[derive(Clone, Copy, Debug, PartialEq, Eq, Structural)]
pub enum Frame {
    /// The value equals the baseline: draw it as it is, with no effect.
    Steady,
    /// Draw the baseline value under the **out** effect at this progress.
    Out(Progress),
    /// Clear what the **out** effect left on the layer, then draw the new value
    /// under the **in** effect at this progress.
    In(Progress),
    /// The animation has ended: forget the baseline and the layer's leftovers,
    /// and draw the new value with no effect.
    Finish,
}

/// The frame drawn for a session in the given run state.
pub open spec fn frame_of(state: RunState) -> Frame {
    match state {
        RunState::OutSeg(p) => Frame::Out(p),
        RunState::InSeg(p) => Frame::In(p),
        RunState::Idle => Frame::Finish,
    }
}

/// The start time of the session that a changed value runs: the stored one,
/// or `now` for a session that starts on this frame.
pub open spec fn session_start(stored: Option<u64>, now: u64) -> u64 {
    match stored {
        Some(t) => t,
        None => now,
    }
}

/// The frame drawn at `now`, given the stored start time and whether the value
/// differs from its baseline.
pub open spec fn frame_at(stored: Option<u64>, changed: bool, now: u64, timing: Timing) -> Frame {
    if changed {
        frame_of(run_state_at(session_start(stored, now), now, timing))
    } else {
        Frame::Steady
    }
}

/// The stored start time after the frame at `now`: unchanged for a steady
/// value, removed once the session ends, and otherwise the session's start.
pub open spec fn stored_after(stored: Option<u64>, changed: bool, now: u64, timing: Timing) -> Option<u64> {
    if !changed {
        stored
    } else if frame_at(stored, changed, now, timing) is Finish {
        None
    } else {
        Some(session_start(stored, now))
    }
}

/// The run state reported for an identifier with this stored start time.
pub open spec fn run_state_of(stored: Option<u64>, now: u64, timing: Timing) -> RunState {
    match stored {
        Some(t) => run_state_at(t, now, timing),
        None => RunState::Idle,
    }
}

impl AnimationState {
    /// The frame to draw for this state of a running session.
    pub fn animate(&self) -> (r: Frame)
        ensures
            r == frame_of(run_state_at(self.start_time, self.current_time, self.timing)),
    {
        match self.run_state() {
            RunState::OutSeg(normal) => Frame::Out(normal),
            RunState::InSeg(normal) => Frame::In(normal),
            RunState::Idle => Frame::Finish,
        }
    }
}

/// Decide the frame at `now` for one identifier.
///
/// `start_time` is the identifier's stored session start; `changed` says whether
/// the observed value differs from its baseline. A changed value starts a session
/// at `now` when none is stored; a running session keeps its start time; a
/// session that has ended is removed.
pub fn animate(start_time: &mut Option<u64>, changed: bool, now: u64, timing: Timing) -> (r: Frame)
    ensures
        r == frame_at(*old(start_time), changed, now, timing),
        *final(start_time) == stored_after(*old(start_time), changed, now, timing),
{
    if !changed {
        return Frame::Steady;
    }
    let start = match *start_time {
        Some(t) => t,
        None => now,
    };
    let frame = AnimationState::new(start, now, timing).animate();
    *start_time = match frame {
        Frame::Finish => None,
        _ => Some(start),
    };
    frame
}

/// Get the [`RunState`] at `now` of the animation whose stored start time is
/// `start_time`, without changing anything. No stored session reads as idle.
pub fn run_state(start_time: Option<u64>, now: u64, timing: Timing) -> (r: RunState)
    ensures
        r == run_state_of(start_time, now, timing),
        r.wf(),
{
    match start_time {
        Some(start_time) => AnimationState::new(start_time, now, timing).run_state(),
        None => RunState::Idle,
    }
}

/// A value equal to its baseline on an identifier with no session draws a steady
/// frame and creates no session.
pub proof fn lemma_steady_creates_no_session(now: u64, timing: Timing)
    ensures
        frame_at(None, false, now, timing) == Frame::Steady,
        stored_after(None, false, now, timing) is None,
{
}

/// The frame that ends a session removes its start time, so that the identifier
/// reads as idle at every later instant and the next change starts afresh.
pub proof fn lemma_finish_clears_session(stored: Option<u64>, now: u64, later: u64, timing: Timing)
    requires
        frame_at(stored, true, now, timing) is Finish,
    ensures
        stored_after(stored, true, now, timing) is None,
        run_state_of(stored_after(stored, true, now, timing), later, timing) == RunState::Idle,
        frame_at(stored_after(stored, true, now, timing), true, later, timing)
            == frame_at(None, true, later, timing),
{
}

} // verus!

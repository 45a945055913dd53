//! The timing engine: which segment runs at a given instant, and how far along.
use vstd::prelude::*;

verus! {

/// The durations, in milliseconds, of the two segments of an animation.
#[derive(Clone, Copy, Debug, PartialEq, Eq, Structural)]
pub struct Timing {
    /// Duration of the **out** segment.
    pub out_dur: u64,
    /// Duration of the **in** segment.
    pub in_dur: u64,
}

/// The progress of a running segment: `elapsed` milliseconds out of `duration`.
///
/// The normalized progress is the fraction `elapsed / duration`; a well-formed
/// progress lies in `[0, 1)`.
#[derive(Clone, Copy, Debug, PartialEq, Eq, Structural)]
pub struct Progress {
    pub elapsed: u64,
    pub duration: u64,
}

impl Progress {
    /// The fraction is defined and below one.
    pub open spec fn wf(self) -> bool {
        self.elapsed < self.duration
    }

    /// The normalized progress equals `num / den`.
    pub open spec fn normal_is(self, num: int, den: int) -> bool {
        self.elapsed * den == num * self.duration
    }
}

/// An identified animation segment and its progress.
#[derive(Clone, Copy, Debug, PartialEq, Eq, Structural)]
pub enum RunState {
    /// The **out** segment is running.
    OutSeg(Progress),
    /// The **in** segment is running.
    InSeg(Progress),
    /// The animation is not running.
    Idle,
}

/// `max(0, now - from)`: the time elapsed since `from`, clamped at zero.
pub open spec fn elapsed_since(from: int, now: int) -> int {
    if now > from { now - from } else { 0 }
}

/// The run state at `now` of an animation that started at `start`.
///
/// The out segment covers `[start, start + out_dur)`, the in segment the
/// `in_dur` milliseconds after it; an instant before `start` counts as `start`.
pub open spec fn run_state_at(start: u64, now: u64, timing: Timing) -> RunState {
    let out_elapsed = elapsed_since(start as int, now as int);
    let in_elapsed = elapsed_since(start + timing.out_dur, now as int);
    if out_elapsed < timing.out_dur {
        RunState::OutSeg(Progress { elapsed: out_elapsed as u64, duration: timing.out_dur })
    } else if in_elapsed < timing.in_dur {
        RunState::InSeg(Progress { elapsed: in_elapsed as u64, duration: timing.in_dur })
    } else {
        RunState::Idle
    }
}

impl Default for RunState {
    /// An animation that does not exist is not running.
    fn default() -> (r: Self)
        ensures
            r == RunState::Idle,
    {
        RunState::Idle
    }
}

impl RunState {
    /// Any progress it carries is well formed.
    pub open spec fn wf(self) -> bool {
        match self {
            RunState::OutSeg(p) => p.wf(),
            RunState::InSeg(p) => p.wf(),
            RunState::Idle => true,
        }
    }

    /// Returns `true` if the animation is in either the **out** or **in** segment.
    pub fn is_running(&self) -> (r: bool)
        ensures
            r == !(*self is Idle),
    {
        match self {
            RunState::OutSeg(_) | RunState::InSeg(_) => true,
            RunState::Idle => false,
        }
    }
}

/// The state of one animation at one instant: when it started, the time now,
/// and the durations of its segments.
#[derive(Clone, Copy, Debug)]
pub struct AnimationState {
    pub start_time: u64,
    pub current_time: u64,
    pub timing: Timing,
}

impl AnimationState {
    /// Create a new `AnimationState` from the `start_time`, `current_time` and `timing`.
    pub fn new(start_time: u64, current_time: u64, timing: Timing) -> (r: Self)
        ensures
            r.start_time == start_time,
            r.current_time == current_time,
            r.timing == timing,
    {
        AnimationState { start_time, current_time, timing }
    }

    /// Get the **out** segment duration.
    pub fn out_dur(&self) -> (r: u64)
        ensures
            r == self.timing.out_dur,
    {
        self.timing.out_dur
    }

    /// Get the **out** segment start time.
    pub fn out_start(&self) -> (r: u64)
        ensures
            r == self.start_time,
    {
        self.start_time
    }

    /// Get the **out** segment end time.
    pub fn out_end(&self) -> (r: u64)
        requires
            self.start_time + self.timing.out_dur <= u64::MAX,
        ensures
            r == self.start_time + self.timing.out_dur,
    {
        self.out_start() + self.out_dur()
    }

    /// Time elapsed since the start, clamped at zero.
    fn elapsed(&self) -> (r: u64)
        ensures
            r == elapsed_since(self.start_time as int, self.current_time as int),
    {
        if self.current_time > self.start_time {
            self.current_time - self.start_time
        } else {
            0
        }
    }

    /// Get the elapsed time of the **out** segment. Returns `Some(0)` if the animation
    /// has yet to begin, and `None` once the segment has finished.
    pub fn out_elapsed(&self) -> (r: Option<u64>)
        ensures
            ({
                let e = elapsed_since(self.start_time as int, self.current_time as int);
                r == if e < self.timing.out_dur { Some(e as u64) } else { None::<u64> }
            }),
    {
        let out_elapsed = self.elapsed();
        if out_elapsed < self.out_dur() {
            Some(out_elapsed)
        } else {
            None
        }
    }

    /// Get the progress of the **out** segment. Returns a zero progress if the
    /// animation has yet to begin, and `None` once the segment has finished.
    pub fn out_elapsed_normal(&self) -> (r: Option<Progress>)
        ensures
            ({
                let e = elapsed_since(self.start_time as int, self.current_time as int);
                r == if e < self.timing.out_dur {
                    Some(Progress { elapsed: e as u64, duration: self.timing.out_dur })
                } else {
                    None::<Progress>
                }
            }),
    {
        match self.out_elapsed() {
            Some(elapsed) => Some(Progress { elapsed, duration: self.out_dur() }),
            None => None,
        }
    }

    /// Get the **in** segment duration.
    pub fn in_dur(&self) -> (r: u64)
        ensures
            r == self.timing.in_dur,
    {
        self.timing.in_dur
    }

    /// Get the **in** segment start time, which is the end of the **out** segment.
    pub fn in_start(&self) -> (r: u64)
        requires
            self.start_time + self.timing.out_dur <= u64::MAX,
        ensures
            r == self.start_time + self.timing.out_dur,
    {
        self.out_end()
    }

    /// Get the **in** segment end time.
    pub fn in_end(&self) -> (r: u64)
        requires
            self.start_time + self.timing.out_dur + self.timing.in_dur <= u64::MAX,
        ensures
            r == self.start_time + self.timing.out_dur + self.timing.in_dur,
    {
        self.in_start() + self.in_dur()
    }

    /// Get the elapsed time of the **in** segment. Returns `Some(0)` if the segment
    /// has yet to begin, and `None` once it has finished.
    pub fn in_elapsed(&self) -> (r: Option<u64>)
        ensures
            ({
                let e = elapsed_since(self.start_time + self.timing.out_dur, self.current_time as int);
                r == if e < self.timing.in_dur { Some(e as u64) } else { None::<u64> }
            }),
    {
        let elapsed = self.elapsed();
        let in_elapsed = if elapsed > self.out_dur() {
            elapsed - self.out_dur()
        } else {
            0
        };
        if in_elapsed < self.in_dur() {
            Some(in_elapsed)
        } else {
            None
        }
    }

    /// Get the progress of the **in** segment. Returns a zero progress if the
    /// segment has yet to begin, and `None` once it has finished.
    pub fn in_elapsed_normal(&self) -> (r: Option<Progress>)
        ensures
            ({
                let e = elapsed_since(self.start_time + self.timing.out_dur, self.current_time as int);
                r == if e < self.timing.in_dur {
                    Some(Progress { elapsed: e as u64, duration: self.timing.in_dur })
                } else {
                    None::<Progress>
                }
            }),
    {
        match self.in_elapsed() {
            Some(elapsed) => Some(Progress { elapsed, duration: self.in_dur() }),
            None => None,
        }
    }

    /// Get the `RunState` for the current instant.
    pub fn run_state(&self) -> (r: RunState)
        ensures
            r == run_state_at(self.start_time, self.current_time, self.timing),
            r.wf(),
    {
        if let Some(normal) = self.out_elapsed_normal() {
            RunState::OutSeg(normal)
        } else if let Some(normal) = self.in_elapsed_normal() {
            RunState::InSeg(normal)
        } else {
            RunState::Idle
        }
    }
}

/// The position of a run state in the order out, in, idle.
pub open spec fn phase_rank(state: RunState) -> int {
    match state {
        RunState::OutSeg(_) => 0,
        RunState::InSeg(_) => 1,
        RunState::Idle => 2,
    }
}

/// At its start instant, an animation with a nonempty out segment is in the out
/// segment with zero progress.
pub proof fn lemma_starts_out(t0: u64, timing: Timing)
    requires
        timing.out_dur > 0,
    ensures
        run_state_at(t0, t0, timing) == RunState::OutSeg(Progress { elapsed: 0, duration: timing.out_dur }),
{
}

/// With both segments nonempty: halfway through the out segment the progress is
/// one half; at its end the in segment starts from zero; halfway through the in
/// segment its progress is one half; from the end of the in segment on, the
/// animation is idle. Halfway instants exist for even durations.
pub proof fn lemma_segment_milestones(t0: u64, timing: Timing)
    requires
        timing.out_dur > 0,
        timing.in_dur > 0,
        t0 + timing.out_dur + timing.in_dur <= u64::MAX,
    ensures
        timing.out_dur % 2 == 0 ==> (run_state_at(t0, (t0 + timing.out_dur / 2) as u64, timing)
            matches RunState::OutSeg(p) && p.normal_is(1, 2)),
        run_state_at(t0, (t0 + timing.out_dur) as u64, timing)
            == RunState::InSeg(Progress { elapsed: 0, duration: timing.in_dur }),
        timing.in_dur % 2 == 0 ==> (run_state_at(t0, (t0 + timing.out_dur + timing.in_dur / 2) as u64, timing)
            matches RunState::InSeg(p) && p.normal_is(1, 2)),
        forall|now: u64| now >= t0 + timing.out_dur + timing.in_dur
            ==> #[trigger] run_state_at(t0, now, timing) == RunState::Idle,
{
}

/// As time goes on, the phase never goes back: out, then in, then idle.
pub proof fn lemma_phase_monotonic(start: u64, t1: u64, t2: u64, timing: Timing)
    requires
        t1 <= t2,
    ensures
        phase_rank(run_state_at(start, t1, timing)) <= phase_rank(run_state_at(start, t2, timing)),
{
}

/// Once the animation is idle, it stays idle at every later instant.
pub proof fn lemma_idle_is_final(start: u64, t1: u64, t2: u64, timing: Timing)
    requires
        t1 <= t2,
        run_state_at(start, t1, timing) is Idle,
    ensures
        run_state_at(start, t2, timing) is Idle,
{
}

/// Before its start instant, an animation with a nonempty out segment reports the
/// out segment with zero progress.
pub proof fn lemma_clamped_before_start(start: u64, now: u64, timing: Timing)
    requires
        now < start,
        timing.out_dur > 0,
    ensures
        run_state_at(start, now, timing) == RunState::OutSeg(Progress { elapsed: 0, duration: timing.out_dur }),
{
}

} // verus!

use egui_animate::{run_state, AnimationState, Progress, RunState, Timing};

fn at(start: u64, now: u64, out_dur: u64, in_dur: u64) -> RunState {
    AnimationState::new(start, now, Timing { out_dur, in_dur }).run_state()
}

fn out_seg(elapsed: u64, duration: u64) -> RunState {
    RunState::OutSeg(Progress { elapsed, duration })
}

fn in_seg(elapsed: u64, duration: u64) -> RunState {
    RunState::InSeg(Progress { elapsed, duration })
}

fn rank(state: RunState) -> u32 {
    match state {
        RunState::OutSeg(_) => 0,
        RunState::InSeg(_) => 1,
        RunState::Idle => 2,
    }
}

#[test]
fn starts_in_out_segment_at_zero() {
    assert_eq!(at(0, 0, 400, 600), out_seg(0, 400));
    assert_eq!(at(12_345, 12_345, 1, 1), out_seg(0, 1));
}

#[test]
fn segment_milestones() {
    let (t0, out_dur, in_dur) = (5_000, 800, 400);
    assert_eq!(at(t0, t0 + out_dur / 2, out_dur, in_dur), out_seg(400, 800));
    assert_eq!(at(t0, t0 + out_dur, out_dur, in_dur), in_seg(0, 400));
    assert_eq!(at(t0, t0 + out_dur + in_dur / 2, out_dur, in_dur), in_seg(200, 400));
    assert_eq!(at(t0, t0 + out_dur + in_dur, out_dur, in_dur), RunState::Idle);
    assert_eq!(at(t0, t0 + out_dur + in_dur + 1, out_dur, in_dur), RunState::Idle);
}

#[test]
fn phases_never_regress() {
    let mut last = 0;
    for now in 0..2_000u64 {
        let r = rank(at(100, now, 700, 500));
        assert!(r >= last);
        last = r;
    }
    assert_eq!(last, 2);
}

#[test]
fn idle_stays_idle() {
    assert_eq!(at(0, 1_000, 600, 400), RunState::Idle);
    for now in [1_001u64, 5_000, 1_000_000, u64::MAX] {
        assert_eq!(at(0, now, 600, 400), RunState::Idle);
    }
}

#[test]
fn before_start_is_clamped_to_zero() {
    assert_eq!(at(1_000, 0, 500, 500), out_seg(0, 500));
    assert_eq!(at(1_000, 999, 500, 500), out_seg(0, 500));
}

#[test]
fn before_start_with_empty_out_segment() {
    assert_eq!(at(1_000, 0, 0, 500), in_seg(0, 500));
}

#[test]
fn scenario_equal_segments() {
    assert_eq!(at(1_000, 1_000, 1_500, 1_500), out_seg(0, 1_500));
    assert_eq!(at(1_000, 1_750, 1_500, 1_500), out_seg(750, 1_500));
    assert_eq!(at(1_000, 3_000, 1_500, 1_500), in_seg(500, 1_500));
    assert_eq!(at(1_000, 3_250, 1_500, 1_500), in_seg(750, 1_500));
    assert_eq!(at(1_000, 4_000, 1_500, 1_500), RunState::Idle);
    assert_eq!(at(1_000, 5_000, 1_500, 1_500), RunState::Idle);
}

#[test]
fn scenario_zero_duration_out() {
    assert_eq!(at(0, 0, 0, 1_000), in_seg(0, 1_000));
}

#[test]
fn both_segments_empty_is_idle_at_once() {
    assert_eq!(at(42, 42, 0, 0), RunState::Idle);
}

#[test]
fn near_the_largest_time() {
    let start = u64::MAX - 10;
    assert_eq!(at(start, u64::MAX, 5, 100), in_seg(5, 100));
    assert_eq!(at(start, u64::MAX, 100, 100), out_seg(10, 100));
}

#[test]
fn is_running_per_variant() {
    assert!(out_seg(0, 1).is_running());
    assert!(in_seg(0, 1).is_running());
    assert!(!RunState::Idle.is_running());
    assert_eq!(RunState::default(), RunState::Idle);
}

#[test]
fn run_state_query_without_session_is_idle() {
    let timing = Timing { out_dur: 300, in_dur: 300 };
    assert_eq!(run_state(None, 100, timing), RunState::Idle);
    assert_eq!(run_state(Some(100), 250, timing), out_seg(150, 300));
    assert_eq!(run_state(Some(100), 400, timing), in_seg(0, 300));
    assert_eq!(run_state(Some(100), 700, timing), RunState::Idle);
}

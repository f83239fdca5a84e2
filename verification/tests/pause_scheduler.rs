//! The pause scheduler: cadence, wrap-around, and the absence of any
//! automatic resume.

use bevy_rl::control_switch;
use bevy_rl::SimulationPauseTimer;
use bevy_rl::SimulationState;

/// With cadence 500 and frames of 160 time units, the simulation pauses
/// at exactly the fourth frame (the first frame whose accumulated time
/// covers the period), and never earlier.
#[test]
fn pause_cadence_exact_frame() {
    let mut timer = SimulationPauseTimer::new(500);
    let mut state = SimulationState::Running;

    for frame in 1..=3u32 {
        let (next, pause) = control_switch(state, &mut timer, 160);
        assert_eq!(next, SimulationState::Running, "frame {frame}");
        assert!(pause.is_none(), "frame {frame}");
        state = next;
    }
    let (next, pause) = control_switch(state, &mut timer, 160);
    assert_eq!(next, SimulationState::PausedForControl);
    assert!(pause.is_some());
}

/// A cadence that divides evenly into frames pauses on the exact frame.
#[test]
fn pause_cadence_divides_evenly() {
    let mut timer = SimulationPauseTimer::new(1000);
    let (next, pause) = control_switch(SimulationState::Running, &mut timer, 500);
    assert_eq!(next, SimulationState::Running);
    assert!(pause.is_none());
    let (next, pause) = control_switch(next, &mut timer, 500);
    assert_eq!(next, SimulationState::PausedForControl);
    assert!(pause.is_some());
    assert_eq!(timer.elapsed, 0);
}

/// A frame longer than the whole cadence pauses on the very first frame.
#[test]
fn pause_cadence_single_long_frame() {
    let mut timer = SimulationPauseTimer::new(100);
    let (next, pause) = control_switch(SimulationState::Running, &mut timer, 1000);
    assert_eq!(next, SimulationState::PausedForControl);
    assert!(pause.is_some());
}

/// On completing a period the timer wraps the overshoot into the next
/// period instead of discarding it.
#[test]
fn timer_wraps_overshoot() {
    let mut timer = SimulationPauseTimer::new(500);
    assert!(!timer.tick(480));
    assert!(timer.tick(160));
    assert_eq!(timer.elapsed, 140);
}

/// A tick that lands exactly on the period boundary finishes it.
#[test]
fn timer_finishes_on_boundary() {
    let mut timer = SimulationPauseTimer::new(100);
    assert!(!timer.tick(99));
    assert!(timer.tick(1));
    assert_eq!(timer.elapsed, 0);
}

/// The accumulator takes the largest representable frame in one tick.
#[test]
fn timer_accepts_largest_frame() {
    let mut timer = SimulationPauseTimer::new(5);
    assert!(timer.tick(u64::MAX));
    assert_eq!(timer.elapsed, u64::MAX % 5);
}

/// Once paused, the state stays `PausedForControl` across arbitrarily
/// many frames, and the timer does not accumulate, until logic outside
/// the core explicitly requests `Running`.
#[test]
fn no_auto_resume() {
    let mut timer = SimulationPauseTimer::new(500);
    let mut state = SimulationState::Running;
    loop {
        let (next, _) = control_switch(state, &mut timer, 160);
        state = next;
        if state == SimulationState::PausedForControl {
            break;
        }
    }
    let elapsed_at_pause = timer.elapsed;
    for _ in 0..1000 {
        let (next, pause) = control_switch(state, &mut timer, 160);
        assert_eq!(next, SimulationState::PausedForControl);
        assert!(pause.is_none());
        state = next;
    }
    assert_eq!(timer.elapsed, elapsed_at_pause);

    // The explicit external request is what resumes the simulation.
    state = SimulationState::Running;
    let (next, _) = control_switch(state, &mut timer, 160);
    assert_eq!(next, SimulationState::Running);
}

/// While initializing, the scheduler neither pauses nor touches the
/// timer.
#[test]
fn initializing_ignores_timer() {
    let mut timer = SimulationPauseTimer::new(100);
    let (next, pause) = control_switch(SimulationState::Initializing, &mut timer, 1000);
    assert_eq!(next, SimulationState::Initializing);
    assert!(pause.is_none());
    assert_eq!(timer.elapsed, 0);
}

/// The default simulation state is `Running`.
#[test]
fn default_state_is_running() {
    assert_eq!(SimulationState::default(), SimulationState::Running);
}

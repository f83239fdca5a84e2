//! The step/reset rendezvous protocol and the per-agent bookkeeping,
//! exercised end to end through the shared environment record.

use bevy_rl::state::AIGymStateInner;
use bevy_rl::state::StepSubmitOutcome;
use bevy_rl::AIGymSettings;
use bevy_rl::EventControl;
use bevy_rl::{process_control_request, process_reset_request};

fn settings(num_agents: u32) -> AIGymSettings {
    AIGymSettings {
        width: 0,
        height: 0,
        num_agents,
        pause_interval: 100,
        render_to_buffer: false,
    }
}

/// A toy environment snapshot: one position per agent.
type Positions = Vec<(f32, f32)>;

fn apply_action(position: &mut (f32, f32), action: &str) {
    match action {
        "DOWN" => position.1 -= 1.0,
        "UP" => position.1 += 1.0,
        "LEFT" => position.0 -= 1.0,
        "RIGHT" => position.0 += 1.0,
        _ => {}
    }
}

/// Query the fresh state, drive one full step cycle, and query again: the
/// rewards stay zero, no agent terminates, and the published snapshot
/// reflects the moved agents.
#[test]
fn test_api_state_step() {
    let mut record: AIGymStateInner<String, Positions> = AIGymStateInner::new(settings(5));

    // State query on the fresh environment.
    assert_eq!(record.rewards, vec![0u32; 5]);
    assert_eq!(record.terminations, vec![false; 5]);
    assert!(record.environment_state.is_none());

    // The client submits one action per agent.
    let actions: Vec<Option<String>> = ["DOWN", "UP", "LEFT", "RIGHT", "IDLE"]
        .iter()
        .map(|a| Some(a.to_string()))
        .collect();
    assert_eq!(
        record.submit_step_request(actions),
        StepSubmitOutcome::Accepted
    );

    // The paused tick loop consumes the batch and hands it to host logic.
    let event = process_control_request(&mut record).expect("a control event");
    let mut positions: Positions = vec![(0.0, 0.0); 5];
    let EventControl(batch) = event;
    assert_eq!(batch.len(), 5);
    for (i, action) in batch.iter().enumerate() {
        if let Some(action) = action {
            apply_action(&mut positions[i], action);
        }
    }
    record.set_env_state(positions);
    record.send_step_result(vec![true; 5]);

    // The network side receives the result and reads the bookkeeping.
    assert_eq!(record.take_step_result(), Some(vec![true; 5]));
    assert_eq!(record.rewards, vec![0u32; 5]);
    assert_eq!(record.terminations, vec![false; 5]);
    let snapshot = record.environment_state.as_ref().expect("a snapshot");
    assert_eq!(
        snapshot,
        &vec![(0.0, -1.0), (0.0, 1.0), (-1.0, 0.0), (1.0, 0.0), (0.0, 0.0)]
    );
}

/// An absent action is a no-op for that agent; the batch still reaches
/// host logic whole and the result still reports every agent.
#[test]
fn scenario_fresh_environment_with_absent_action() {
    let mut record: AIGymStateInner<String, Positions> = AIGymStateInner::new(settings(5));

    let actions: Vec<Option<String>> = vec![
        Some("DOWN".to_string()),
        Some("UP".to_string()),
        Some("LEFT".to_string()),
        Some("RIGHT".to_string()),
        None,
    ];
    assert_eq!(
        record.submit_step_request(actions),
        StepSubmitOutcome::Accepted
    );

    let EventControl(batch) = process_control_request(&mut record).expect("a control event");
    let mut positions: Positions = vec![(0.0, 0.0); 5];
    for (i, action) in batch.iter().enumerate() {
        if let Some(action) = action {
            apply_action(&mut positions[i], action);
        }
    }
    record.set_env_state(positions);
    record.send_step_result(vec![true; 5]);

    assert_eq!(record.take_step_result(), Some(vec![true; 5]));
    for i in 0..5 {
        assert_eq!(f32::from_bits(record.rewards[i]), 0.0);
        assert!(!record.terminations[i]);
    }
    let snapshot = record.environment_state.as_ref().expect("a snapshot");
    assert_eq!(snapshot[4], (0.0, 0.0));
    assert_eq!(snapshot[0], (0.0, -1.0));
}

/// A reset while two of five agents are terminated with nonzero rewards
/// returns every array to all-false/all-zero and answers the client.
#[test]
fn scenario_reset_clears_bookkeeping() {
    let mut record: AIGymStateInner<String, Positions> = AIGymStateInner::new(settings(5));

    record.set_terminated(1, true);
    record.set_terminated(3, true);
    record.set_reward(1, 2.5f32.to_bits());
    record.set_reward(3, (-1.0f32).to_bits());
    assert!(record.terminations[1] && record.terminations[3]);
    assert_eq!(f32::from_bits(record.rewards[1]), 2.5);

    assert!(record.submit_reset_request());
    assert!(process_reset_request(&mut record).is_some());

    // Host logic repositions the world, then signals completion.
    record.reset();
    assert_eq!(record.take_reset_result(), Some(true));
    assert_eq!(record.rewards, vec![0u32; 5]);
    assert_eq!(record.terminations, vec![false; 5]);
}

/// A step request submitted while the simulation is running stays queued
/// until a paused tick consumes it: exactly one control event carries it,
/// neither dropped nor duplicated.
#[test]
fn scenario_step_request_waits_for_pause() {
    let mut record: AIGymStateInner<String, Positions> = AIGymStateInner::new(settings(2));

    let actions = vec![Some("UP".to_string()), None];
    assert_eq!(
        record.submit_step_request(actions),
        StepSubmitOutcome::Accepted
    );

    // Frames pass while the simulation is running: the processors do not
    // run, and the request stays queued, unconsumed.
    for _ in 0..10 {
        assert!(record.is_next_action());
    }

    // At the pause boundary the control processor consumes it exactly once.
    let EventControl(batch) = process_control_request(&mut record).expect("a control event");
    assert_eq!(batch, vec![Some("UP".to_string()), None]);
    assert!(!record.is_next_action());
    assert!(process_control_request(&mut record).is_none());
}

/// Two deliveries without an intervening receive keep only the first
/// result: the second call is a no-op, with no error and no value lost.
#[test]
fn step_result_delivered_at_most_once() {
    let mut record: AIGymStateInner<String, Positions> = AIGymStateInner::new(settings(2));

    record.send_step_result(vec![true, false]);
    record.send_step_result(vec![false, false]);
    assert_eq!(record.take_step_result(), Some(vec![true, false]));
    assert_eq!(record.take_step_result(), None);
}

/// The same at-most-once guard holds for the reset result slot.
#[test]
fn reset_result_delivered_at_most_once() {
    let mut record: AIGymStateInner<String, Positions> = AIGymStateInner::new(settings(2));

    record.send_reset_result(false);
    record.send_reset_result(true);
    assert_eq!(record.take_reset_result(), Some(false));
    assert_eq!(record.take_reset_result(), None);
}

/// A batch of the wrong size is rejected and nothing is queued.
#[test]
fn submit_step_request_wrong_count() {
    let mut record: AIGymStateInner<String, Positions> = AIGymStateInner::new(settings(5));

    let outcome = record.submit_step_request(vec![None, None, None]);
    assert_eq!(outcome, StepSubmitOutcome::WrongActionCount);
    assert!(!record.is_next_action());
}

/// A batch arriving while an earlier request is queued is discarded; the
/// earlier batch is not overwritten and is the one the tick loop sees.
#[test]
fn submit_step_request_does_not_overwrite() {
    let mut record: AIGymStateInner<String, Positions> = AIGymStateInner::new(settings(1));

    assert_eq!(
        record.submit_step_request(vec![Some("FIRST".to_string())]),
        StepSubmitOutcome::Accepted
    );
    assert_eq!(
        record.submit_step_request(vec![Some("SECOND".to_string())]),
        StepSubmitOutcome::AlreadyPending
    );
    let EventControl(batch) = process_control_request(&mut record).expect("a control event");
    assert_eq!(batch, vec![Some("FIRST".to_string())]);
}

/// A second reset request while one is pending reports that nothing was
/// queued; the pending request is kept and consumed once.
#[test]
fn submit_reset_request_does_not_overwrite() {
    let mut record: AIGymStateInner<String, Positions> = AIGymStateInner::new(settings(1));

    assert!(record.submit_reset_request());
    assert!(!record.submit_reset_request());
    assert!(record.is_reset_request());
    assert!(process_reset_request(&mut record).is_some());
    assert!(!record.is_reset_request());
    assert!(process_reset_request(&mut record).is_none());
}

/// Every per-agent array is sized to the agent count from the start.
#[test]
fn arrays_sized_to_num_agents() {
    let record: AIGymStateInner<String, Positions> = AIGymStateInner::new(settings(7));

    assert_eq!(record.rewards.len(), 7);
    assert_eq!(record.terminations.len(), 7);
    assert_eq!(record.actions.len(), 7);
    assert!(record.actions.iter().all(|a| a.is_none()));
}

/// Rewards carry 32-bit payloads faithfully: a floating-point score
/// stored as its bit pattern comes back exactly.
#[test]
fn set_reward_round_trips_float_bits() {
    let mut record: AIGymStateInner<String, Positions> = AIGymStateInner::new(settings(3));

    record.set_reward(0, 0.25f32.to_bits());
    record.set_reward(2, (-7.75f32).to_bits());
    assert_eq!(f32::from_bits(record.rewards[0]), 0.25);
    assert_eq!(f32::from_bits(record.rewards[1]), 0.0);
    assert_eq!(f32::from_bits(record.rewards[2]), -7.75);
}

/// Publishing an environment-state snapshot overwrites the previous one;
/// only the most recent publish is visible.
#[test]
fn env_state_keeps_most_recent_publish() {
    let mut record: AIGymStateInner<String, u64> = AIGymStateInner::new(settings(1));

    assert!(record.environment_state.is_none());
    record.set_env_state(41);
    record.set_env_state(42);
    assert_eq!(record.environment_state, Some(42));
}

/// Consuming the action batch empties the request slot; the boolean
/// payload of a reset request is discarded as a pure signal.
#[test]
fn receive_consumes_exactly_once() {
    let mut record: AIGymStateInner<String, u64> = AIGymStateInner::new(settings(1));

    assert_eq!(
        record.submit_step_request(vec![None]),
        StepSubmitOutcome::Accepted
    );
    assert!(record.is_next_action());
    assert_eq!(record.receive_action_strings(), vec![None]);
    assert!(!record.is_next_action());

    assert!(record.submit_reset_request());
    assert!(record.is_reset_request());
    record.receive_reset_request();
    assert!(!record.is_reset_request());
}

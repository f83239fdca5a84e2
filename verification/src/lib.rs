//! Synchronization core for driving a frame-ticked simulation as a
//! turn-based reinforcement-learning environment.
//!
//! An external client submits an action batch and receives a per-agent
//! reward/termination result, while the simulation advances frame by frame
//! on its own schedule. This crate provides the pieces that reconcile the
//! two execution models:
//!
//! - single-slot rendezvous channels ([`channel::RendezvousSlot`]) carrying
//!   requests from the network side to the tick loop and results back;
//! - the shared environment record ([`state::AIGymStateInner`]) holding the
//!   channels, the per-agent bookkeeping arrays and the latest published
//!   environment-state snapshot;
//! - the simulation state machine ([`SimulationState`]) and the pause
//!   scheduler ([`SimulationPauseTimer`], [`control_switch`]) that
//!   periodically freeze simulation advancement to accept actions;
//! - the control/reset request processors ([`process_control_request`],
//!   [`process_reset_request`]) that drain a pending request while paused
//!   and hand it to host-supplied logic as a domain event.
//!
//! Time is measured in integer ticks of an arbitrary unit (the embedding
//! chooses one, e.g. microseconds); rewards are carried as opaque 32-bit
//! payloads (an embedding that scores with floating-point numbers stores
//! their bit patterns; zero encodes a zero reward).

use vstd::prelude::*;

pub mod channel;
pub mod render;
pub mod state;

pub use state::AIGymStateInner;
pub use state::StepSubmitOutcome;

verus! {

/// Plugin settings: agent count, control cadence and rendering toggles,
/// supplied once at startup and immutable thereafter.
#[derive(Clone, Copy, PartialEq, Eq, Structural, Debug)]
pub struct AIGymSettings {
    /// Width of one agent's render target, in pixels.
    pub width: u32,
    /// Height of one agent's render target, in pixels.
    pub height: u32,
    /// Number of simulated agents; every per-agent array has this length.
    pub num_agents: u32,
    /// Control cadence: time units between pause opportunities.
    pub pause_interval: u64,
    /// Whether rendered frames are copied out for visual observations.
    pub render_to_buffer: bool,
}

/// Fired when the client submits a reset request.
pub struct EventReset;

/// Fired when the client submits a step request; carries one optional
/// action string per agent.
pub struct EventControl(pub Vec<Option<String>>);

/// Fired when the pause scheduler freezes simulation advancement.
pub struct EventPause;

/// States of the simulation. Created as `Initializing`, becomes `Running`
/// after first-frame setup, and toggles between `Running` and
/// `PausedForControl` for the rest of the process lifetime.
#[derive(Clone, Copy, PartialEq, Eq, Structural, Hash, Debug)]
pub enum SimulationState {
    Initializing,
    Running,
    PausedForControl,
}

impl Default for SimulationState {
    fn default() -> (state: Self)
        ensures
            state is Running,
    {
        SimulationState::Running
    }
}

/// Division of `a` by `b`, rounded up.
pub open spec fn ceil_div(a: int, b: int) -> int {
    (a + b - 1) / b
}

/// Bounds that pin `ceil_div` down: it is the least multiplier whose
/// product with `b` reaches `a`, and it never exceeds `a` itself.
pub proof fn lemma_ceil_div_bounds(a: int, b: int)
    requires
        1 <= a,
        1 <= b,
    ensures
        (ceil_div(a, b) - 1) * b < a,
        a <= ceil_div(a, b) * b,
        1 <= ceil_div(a, b) <= a,
{
    let q = ceil_div(a, b);
    let r = (a + b - 1) % b;
    vstd::arithmetic::div_mod::lemma_fundamental_div_mod(a + b - 1, b);
    vstd::arithmetic::div_mod::lemma_mod_bound(a + b - 1, b);
    assert((q - 1) * b < a && a <= q * b && 1 <= q && q <= a) by (nonlinear_arith)
        requires
            a + b - 1 == b * q + r,
            0 <= r < b,
            1 <= a,
            1 <= b,
    ;
}

/// Periodic timer that pauses the simulation every
/// `AIGymSettings::pause_interval` time units. The timer repeats: on
/// completing a period it wraps the overshoot into the next period.
pub struct SimulationPauseTimer {
    /// Length of one period, in time units; at least 1.
    pub period: u64,
    /// Time accumulated in the current period; always below `period`.
    pub elapsed: u64,
}

impl SimulationPauseTimer {
    pub open spec fn wf(&self) -> bool {
        1 <= self.period && self.elapsed < self.period
    }

    pub fn new(period: u64) -> (timer: Self)
        requires
            1 <= period,
        ensures
            timer.period == period,
            timer.elapsed == 0,
            timer.wf(),
    {
        SimulationPauseTimer { period, elapsed: 0 }
    }

    /// Advance the timer by one frame's elapsed time; report whether a
    /// period completed during this frame. On completion the overshoot
    /// carries over into the next period.
    pub fn tick(&mut self, delta: u64) -> (finished: bool)
        requires
            old(self).wf(),
            old(self).elapsed + delta <= u64::MAX,
        ensures
            final(self).wf(),
            final(self).period == old(self).period,
            finished == (old(self).elapsed + delta >= old(self).period),
            finished ==> final(self).elapsed as int == (old(self).elapsed + delta) % (old(self).period as int),
            !finished ==> final(self).elapsed == old(self).elapsed + delta,
    {
        let total = self.elapsed + delta;
        if total >= self.period {
            self.elapsed = total % self.period;
            true
        } else {
            self.elapsed = total;
            false
        }
    }
}

/// One frame of the pause scheduler, as a mathematical step: given the
/// simulation state, the timer's accumulated time and its period, and the
/// frame's `delta`, yield the next state, the next accumulated time, and
/// whether a pause was emitted. The timer only accumulates while the
/// simulation is `Running`.
pub open spec fn cadence_step(
    state: SimulationState,
    elapsed: int,
    period: int,
    delta: int,
) -> (SimulationState, int, bool) {
    if state is Running {
        if elapsed + delta >= period {
            (SimulationState::PausedForControl, (elapsed + delta) % period, true)
        } else {
            (SimulationState::Running, elapsed + delta, false)
        }
    } else {
        (state, elapsed, false)
    }
}

/// `k` frames of the pause scheduler, each advancing time by `delta`.
pub open spec fn cadence_run(
    state: SimulationState,
    elapsed: int,
    period: int,
    delta: int,
    k: nat,
) -> (SimulationState, int)
    decreases k,
{
    if k == 0 {
        (state, elapsed)
    } else {
        let prev = cadence_run(state, elapsed, period, delta, (k - 1) as nat);
        let next = cadence_step(prev.0, prev.1, period, delta);
        (next.0, next.1)
    }
}

/// Number of frames of fixed length `delta` needed to cover a control
/// cadence of `period` time units: `period / delta`, rounded up.
pub open spec fn frames_to_pause(period: int, delta: int) -> int {
    ceil_div(period, delta)
}

/// Pause cadence law: with a control cadence of `period` and a tick loop
/// advancing by a fixed `delta` per frame, a freshly started simulation
/// transitions `Running -> PausedForControl` at exactly frame
/// `frames_to_pause(period, delta)`, and never earlier; before that frame
/// the accumulated time is exactly the number of frames times `delta`.
/// Each call of [`control_switch`] advances by one [`cadence_step`], so
/// this law describes the exact frame at which the tick loop pauses.
pub proof fn lemma_pause_cadence(period: int, delta: int, k: nat)
    requires
        1 <= period,
        1 <= delta,
        k <= frames_to_pause(period, delta),
    ensures
        k < frames_to_pause(period, delta) ==> cadence_run(
            SimulationState::Running,
            0,
            period,
            delta,
            k,
        ) == (SimulationState::Running, delta * k),
        k == frames_to_pause(period, delta) ==> cadence_run(
            SimulationState::Running,
            0,
            period,
            delta,
            k,
        ).0 is PausedForControl,
    decreases k,
{
    lemma_ceil_div_bounds(period, delta);
    let n = frames_to_pause(period, delta);
    assert(n == ceil_div(period, delta));
    assert((n - 1) * delta < period && period <= n * delta) by (nonlinear_arith)
        requires
            n == ceil_div(period, delta),
            (ceil_div(period, delta) - 1) * delta < period,
            period <= ceil_div(period, delta) * delta,
    ;
    if k > 0 {
        lemma_pause_cadence(period, delta, (k - 1) as nat);
        let prev = cadence_run(SimulationState::Running, 0, period, delta, (k - 1) as nat);
        assert(prev == (SimulationState::Running, delta * (k - 1)));
        assert(delta * (k - 1) + delta == delta * k) by (nonlinear_arith);
        if k < n {
            assert(delta * k < period) by (nonlinear_arith)
                requires
                    k as int <= n - 1,
                    (n - 1) * delta < period,
                    1 <= delta,
                    0 <= k as int,
            ;
            assert(cadence_step(SimulationState::Running, delta * (k - 1), period, delta) == (
                SimulationState::Running,
                delta * k,
                false,
            ));
            assert(cadence_run(SimulationState::Running, 0, period, delta, k) == (
                SimulationState::Running,
                delta * k,
            ));
        } else {
            assert(delta * k >= period) by (nonlinear_arith)
                requires
                    k as int == n,
                    period <= n * delta,
            ;
        }
    } else {
        assert(cadence_run(SimulationState::Running, 0, period, delta, 0) == (
            SimulationState::Running,
            0int,
        ));
        assert(delta * k == 0) by (nonlinear_arith)
            requires
                k as int == 0,
        ;
    }
}

/// No-auto-resume law: once the simulation is `PausedForControl`, the
/// pause scheduler leaves both the state and the timer untouched for
/// arbitrarily many frames; only logic outside the core (the host's
/// control handler) requests `Running` again.
pub proof fn lemma_no_auto_resume(elapsed: int, period: int, delta: int, k: nat)
    ensures
        cadence_run(SimulationState::PausedForControl, elapsed, period, delta, k) == (
            SimulationState::PausedForControl,
            elapsed,
        ),
    decreases k,
{
    if k > 0 {
        lemma_no_auto_resume(elapsed, period, delta, (k - 1) as nat);
    }
}

/// The pause scheduler, run once per frame by the tick loop: while the
/// simulation is `Running`, advance the pause timer by the frame's
/// elapsed time, and on completing a period transition to
/// `PausedForControl` and emit the pause notification. In any other
/// state the timer is left untouched and nothing is emitted.
pub fn control_switch(
    state: SimulationState,
    timer: &mut SimulationPauseTimer,
    delta: u64,
) -> (r: (SimulationState, Option<EventPause>))
    requires
        old(timer).wf(),
        state is Running ==> old(timer).elapsed + delta <= u64::MAX,
    ensures
        final(timer).wf(),
        final(timer).period == old(timer).period,
        (r.0, final(timer).elapsed as int, r.1 is Some) == cadence_step(
            state,
            old(timer).elapsed as int,
            old(timer).period as int,
            delta as int,
        ),
{
    if state == SimulationState::Running {
        let finished = timer.tick(delta);
        if finished {
            (SimulationState::PausedForControl, Some(EventPause))
        } else {
            (SimulationState::Running, None)
        }
    } else {
        (state, None)
    }
}

/// The control processor, run by the tick loop only while paused: if a
/// step request is queued, consume it and hand the batch of per-agent
/// action strings to host logic as a control event; otherwise do nothing.
/// Never blocks, and consumes at most one request per call.
pub fn process_control_request<A, B>(ai_gym_state: &mut AIGymStateInner<A, B>) -> (control: Option<
    EventControl,
>)
    requires
        old(ai_gym_state).wf(),
    ensures
        final(ai_gym_state).wf(),
        old(ai_gym_state).step_request@ is None ==> control is None && *final(ai_gym_state) == *old(
            ai_gym_state,
        ),
        old(ai_gym_state).step_request@ matches Some(actions) ==> control == Some(
            EventControl(actions),
        ) && final(ai_gym_state).step_request@ is None,
        final(ai_gym_state).reset_request@ == old(ai_gym_state).reset_request@,
        final(ai_gym_state).step_result@ == old(ai_gym_state).step_result@,
        final(ai_gym_state).reset_result@ == old(ai_gym_state).reset_result@,
        old(ai_gym_state).same_bookkeeping(*final(ai_gym_state)),
        final(ai_gym_state).settings == old(ai_gym_state).settings,
{
    if !ai_gym_state.is_next_action() {
        return None;
    }
    let unparsed_actions = ai_gym_state.receive_action_strings();
    Some(EventControl(unparsed_actions))
}

/// The reset processor, run by the tick loop only while paused: if a
/// reset request is queued, consume it and emit the reset event for host
/// logic (which reinitializes the world and eventually calls
/// [`state::AIGymStateInner::reset`]); otherwise do nothing.
pub fn process_reset_request<A, B>(ai_gym_state: &mut AIGymStateInner<A, B>) -> (reset: Option<EventReset>)
    requires
        old(ai_gym_state).wf(),
    ensures
        final(ai_gym_state).wf(),
        old(ai_gym_state).reset_request@ is None ==> reset is None && *final(ai_gym_state) == *old(
            ai_gym_state,
        ),
        old(ai_gym_state).reset_request@ is Some ==> reset is Some
            && final(ai_gym_state).reset_request@ is None,
        final(ai_gym_state).step_request@ == old(ai_gym_state).step_request@,
        final(ai_gym_state).step_result@ == old(ai_gym_state).step_result@,
        final(ai_gym_state).reset_result@ == old(ai_gym_state).reset_result@,
        old(ai_gym_state).same_bookkeeping(*final(ai_gym_state)),
        final(ai_gym_state).settings == old(ai_gym_state).settings,
{
    if !ai_gym_state.is_reset_request() {
        return None;
    }
    ai_gym_state.receive_reset_request();
    Some(EventReset)
}

} // verus!

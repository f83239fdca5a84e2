//! The shared environment record.
//!
//! One instance exists per running simulation. The embedding shares it
//! between the tick loop and the network-server thread behind a
//! reference-counted, mutex-protected handle; every operation here is a
//! short critical section on that lock. The record is the single source
//! of truth for the per-agent bookkeeping (rewards, terminations, pending
//! actions), the latest published environment-state snapshot, and the four
//! single-slot request/result channels of the step/reset protocol.

use vstd::prelude::*;

use crate::channel::{deliver, RendezvousSlot};
use crate::render::FrameBuffer;
use crate::AIGymSettings;

verus! {

/// Outcome of queueing a step request from the network side.
#[derive(Clone, Copy, PartialEq, Eq, Structural, Debug)]
pub enum StepSubmitOutcome {
    /// The batch was queued and will be consumed by the next paused
    /// control tick.
    Accepted,
    /// The batch does not hold exactly one action per agent; nothing was
    /// queued.
    WrongActionCount,
    /// An earlier step request is still queued; the new batch was
    /// discarded and the earlier one was not overwritten.
    AlreadyPending,
}

/// `AIGymStateInner` synchronizes the engine's tick loop with the network
/// thread through four single-slot request/result channels, and keeps the
/// per-agent bookkeeping both sides read and write.
///
/// Requests travel from the network side to the tick loop
/// (`step_request`, `reset_request`); results travel back once the host
/// has processed a request (`step_result`, `reset_result`).
///
/// The record is generic over the host's parsed action type `A` and its
/// environment-state snapshot type `B`; the core never interprets either.
pub struct AIGymStateInner<A, B> {
    /// Step requests: one batch of optional action strings per request,
    /// one entry per agent.
    pub step_request: RendezvousSlot<Vec<Option<String>>>,
    /// Reset requests; the payload is a pure signal.
    pub reset_request: RendezvousSlot<bool>,
    /// Step results: one flag per agent, sent once the host has updated
    /// rewards and terminations.
    pub step_result: RendezvousSlot<Vec<bool>>,
    /// Reset results: a pure completion signal.
    pub reset_result: RendezvousSlot<bool>,
    /// Latest environment-state snapshot published by host logic; `None`
    /// until the first publish.
    pub environment_state: Option<B>,
    /// Settings supplied at construction; immutable thereafter.
    pub settings: AIGymSettings,
    /// Rendered frames copied out for the visual-observation endpoint.
    pub visual_observations: Vec<FrameBuffer>,
    /// Per-agent rewards, as opaque 32-bit payloads; zero after a reset.
    pub rewards: Vec<u32>,
    /// Per-agent parsed actions, for host logic that stores them.
    pub actions: Vec<Option<A>>,
    /// Per-agent termination flags; all false after a reset.
    pub terminations: Vec<bool>,
}

impl<A, B> AIGymStateInner<A, B> {
    /// Well-formedness: every per-agent array has exactly
    /// `settings.num_agents` entries, as does any queued step batch.
    pub open spec fn wf(&self) -> bool {
        &&& 1 <= self.settings.num_agents
        &&& self.rewards@.len() == self.settings.num_agents as int
        &&& self.terminations@.len() == self.settings.num_agents as int
        &&& self.actions@.len() == self.settings.num_agents as int
        &&& (self.step_request@ matches Some(batch) ==> batch@.len()
            == self.settings.num_agents as int)
        &&& (self.step_result@ matches Some(results) ==> results@.len()
            == self.settings.num_agents as int)
    }

    /// The four channels hold the same queued values in both records.
    pub open spec fn same_channels(self, other: Self) -> bool {
        &&& self.step_request@ == other.step_request@
        &&& self.reset_request@ == other.reset_request@
        &&& self.step_result@ == other.step_result@
        &&& self.reset_result@ == other.reset_result@
    }

    /// The bookkeeping outside the channels is the same in both records:
    /// rewards, terminations, stored actions, the published
    /// environment-state snapshot and the visual observations.
    pub open spec fn same_bookkeeping(self, other: Self) -> bool {
        &&& self.rewards == other.rewards
        &&& self.terminations == other.terminations
        &&& self.actions == other.actions
        &&& self.environment_state == other.environment_state
        &&& self.visual_observations == other.visual_observations
    }

    /// Allocate the channel slots and the zero/false-initialized
    /// per-agent arrays sized to `settings.num_agents`.
    pub fn new(settings: AIGymSettings) -> (record: Self)
        requires
            1 <= settings.num_agents,
        ensures
            record.wf(),
            record.settings == settings,
            record.step_request@ is None,
            record.reset_request@ is None,
            record.step_result@ is None,
            record.reset_result@ is None,
            record.environment_state is None,
            record.visual_observations@.len() == 0,
            record.rewards@.len() == settings.num_agents as int,
            record.terminations@.len() == settings.num_agents as int,
            record.actions@.len() == settings.num_agents as int,
            forall|i: int| 0 <= i < settings.num_agents as int ==> record.rewards@[i] == 0u32,
            forall|i: int|
                0 <= i < settings.num_agents as int ==> record.terminations@[i] == false,
            forall|i: int| 0 <= i < settings.num_agents as int ==> record.actions@[i] is None,
    {
        let mut rewards: Vec<u32> = Vec::new();
        let mut actions: Vec<Option<A>> = Vec::new();
        let mut terminations: Vec<bool> = Vec::new();
        let mut i: u32 = 0;
        while i < settings.num_agents
            invariant
                i <= settings.num_agents,
                rewards@.len() == i as int,
                terminations@.len() == i as int,
                actions@.len() == i as int,
                forall|j: int| 0 <= j < i as int ==> rewards@[j] == 0u32,
                forall|j: int| 0 <= j < i as int ==> terminations@[j] == false,
                forall|j: int| 0 <= j < i as int ==> actions@[j] is None,
            decreases settings.num_agents - i,
        {
            rewards.push(0);
            actions.push(None);
            terminations.push(false);
            i = i + 1;
        }
        AIGymStateInner {
            step_request: RendezvousSlot::empty(),
            reset_request: RendezvousSlot::empty(),
            step_result: RendezvousSlot::empty(),
            reset_result: RendezvousSlot::empty(),
            environment_state: None,
            settings,
            visual_observations: Vec::new(),
            rewards,
            actions,
            terminations,
        }
    }

    /// Once the simulation step is done, deliver the per-agent results to
    /// the waiting client call. A result already queued is kept: the
    /// second delivery is a no-op, so a request is answered at most once
    /// and the first answer is never lost.
    pub fn send_step_result(&mut self, results: Vec<bool>)
        requires
            old(self).wf(),
            results@.len() == old(self).settings.num_agents as int,
        ensures
            final(self).wf(),
            final(self).step_result@ == deliver(old(self).step_result@, results),
            final(self).step_request@ == old(self).step_request@,
            final(self).reset_request@ == old(self).reset_request@,
            final(self).reset_result@ == old(self).reset_result@,
            old(self).same_bookkeeping(*final(self)),
            final(self).settings == old(self).settings,
    {
        let _ = self.step_result.try_send(results);
    }

    /// Once the environment has been reset, deliver the completion signal
    /// to the waiting client call, with the same at-most-once guard as
    /// [`Self::send_step_result`].
    pub fn send_reset_result(&mut self, result: bool)
        requires
            old(self).wf(),
        ensures
            final(self).wf(),
            final(self).reset_result@ == deliver(old(self).reset_result@, result),
            final(self).step_request@ == old(self).step_request@,
            final(self).reset_request@ == old(self).reset_request@,
            final(self).step_result@ == old(self).step_result@,
            old(self).same_bookkeeping(*final(self)),
            final(self).settings == old(self).settings,
    {
        let _ = self.reset_result.try_send(result);
    }

    /// Consume the queued batch of per-agent action strings. The caller
    /// must have verified availability with [`Self::is_next_action`]: a
    /// receive with nothing queued would otherwise have to wait for a
    /// sender, and the tick loop never blocks.
    pub fn receive_action_strings(&mut self) -> (actions: Vec<Option<String>>)
        requires
            old(self).wf(),
            old(self).step_request@ is Some,
        ensures
            final(self).wf(),
            old(self).step_request@ == Some(actions),
            actions@.len() == final(self).settings.num_agents as int,
            final(self).step_request@ is None,
            final(self).reset_request@ == old(self).reset_request@,
            final(self).step_result@ == old(self).step_result@,
            final(self).reset_result@ == old(self).reset_result@,
            old(self).same_bookkeeping(*final(self)),
            final(self).settings == old(self).settings,
    {
        self.step_request.try_receive().unwrap()
    }

    /// Consume a queued reset request, discarding the boolean payload (it
    /// is a pure signal). The caller must have verified availability with
    /// [`Self::is_reset_request`].
    pub fn receive_reset_request(&mut self)
        requires
            old(self).wf(),
            old(self).reset_request@ is Some,
        ensures
            final(self).wf(),
            final(self).reset_request@ is None,
            final(self).step_request@ == old(self).step_request@,
            final(self).step_result@ == old(self).step_result@,
            final(self).reset_result@ == old(self).reset_result@,
            old(self).same_bookkeeping(*final(self)),
            final(self).settings == old(self).settings,
    {
        let _ = self.reset_request.try_receive();
    }

    /// Whether a step request is queued and unconsumed. Non-blocking.
    pub fn is_next_action(&self) -> (r: bool)
        ensures
            r == (self.step_request@ is Some),
    {
        !self.step_request.is_empty()
    }

    /// Whether a reset request is queued and unconsumed. Non-blocking.
    pub fn is_reset_request(&self) -> (r: bool)
        ensures
            r == (self.reset_request@ is Some),
    {
        !self.reset_request.is_empty()
    }

    /// Set one agent's reward. An out-of-range index is a programming
    /// error and is excluded outright rather than absorbed.
    pub fn set_reward(&mut self, agent_index: usize, score: u32)
        requires
            old(self).wf(),
            agent_index < old(self).settings.num_agents as usize,
        ensures
            final(self).wf(),
            final(self).rewards@ == old(self).rewards@.update(agent_index as int, score),
            final(self).terminations == old(self).terminations,
            final(self).actions == old(self).actions,
            final(self).environment_state == old(self).environment_state,
            final(self).visual_observations == old(self).visual_observations,
            old(self).same_channels(*final(self)),
            final(self).settings == old(self).settings,
    {
        self.rewards[agent_index] = score;
    }

    /// Mark one agent as terminated or not. An out-of-range index is a
    /// programming error and is excluded outright.
    pub fn set_terminated(&mut self, agent_index: usize, result: bool)
        requires
            old(self).wf(),
            agent_index < old(self).settings.num_agents as usize,
        ensures
            final(self).wf(),
            final(self).terminations@ == old(self).terminations@.update(agent_index as int, result),
            final(self).rewards == old(self).rewards,
            final(self).actions == old(self).actions,
            final(self).environment_state == old(self).environment_state,
            final(self).visual_observations == old(self).visual_observations,
            old(self).same_channels(*final(self)),
            final(self).settings == old(self).settings,
    {
        self.terminations[agent_index] = result;
    }

    /// Reset the bookkeeping: every termination flag to false and every
    /// reward to zero, whatever they held before, then deliver the reset
    /// completion signal to the waiting client. Host logic calls this
    /// once it has finished repositioning the simulated world.
    pub fn reset(&mut self)
        requires
            old(self).wf(),
        ensures
            final(self).wf(),
            final(self).rewards@.len() == old(self).rewards@.len(),
            final(self).terminations@.len() == old(self).terminations@.len(),
            forall|i: int| 0 <= i < final(self).terminations@.len() ==> final(self).terminations@[i] == false,
            forall|i: int| 0 <= i < final(self).rewards@.len() ==> final(self).rewards@[i] == 0u32,
            final(self).reset_result@ == deliver(old(self).reset_result@, true),
            final(self).step_request@ == old(self).step_request@,
            final(self).reset_request@ == old(self).reset_request@,
            final(self).step_result@ == old(self).step_result@,
            final(self).actions == old(self).actions,
            final(self).environment_state == old(self).environment_state,
            final(self).visual_observations == old(self).visual_observations,
            final(self).settings == old(self).settings,
    {
        let n = self.terminations.len();
        let mut i: usize = 0;
        while i < n
            invariant
                i <= n,
                self.wf(),
                n == self.settings.num_agents as usize,
                self.settings == old(self).settings,
                forall|j: int| 0 <= j < i as int ==> self.terminations@[j] == false,
                forall|j: int| 0 <= j < i as int ==> self.rewards@[j] == 0u32,
                self.step_request@ == old(self).step_request@,
                self.reset_request@ == old(self).reset_request@,
                self.step_result@ == old(self).step_result@,
                self.reset_result@ == old(self).reset_result@,
                self.actions == old(self).actions,
                self.environment_state == old(self).environment_state,
                self.visual_observations == old(self).visual_observations,
            decreases n - i,
        {
            self.set_terminated(i, false);
            self.set_reward(i, 0);
            i = i + 1;
        }
        self.send_reset_result(true);
    }

    /// Publish the latest environment-state snapshot, overwriting any
    /// previous value.
    pub fn set_env_state(&mut self, state: B)
        requires
            old(self).wf(),
        ensures
            final(self).wf(),
            final(self).environment_state == Some(state),
            final(self).rewards == old(self).rewards,
            final(self).terminations == old(self).terminations,
            final(self).actions == old(self).actions,
            final(self).visual_observations == old(self).visual_observations,
            old(self).same_channels(*final(self)),
            final(self).settings == old(self).settings,
    {
        self.environment_state = Some(state);
    }

    /// Queue a step request from the network side: one optional action
    /// string per agent, the whole batch in one envelope. A batch of the
    /// wrong size is rejected; a batch arriving while an earlier request
    /// is still queued is discarded without overwriting it.
    pub fn submit_step_request(&mut self, actions: Vec<Option<String>>) -> (outcome:
        StepSubmitOutcome)
        requires
            old(self).wf(),
        ensures
            final(self).wf(),
            (outcome is WrongActionCount) == (actions@.len() != old(
                self,
            ).settings.num_agents as int),
            (outcome is AlreadyPending) == (actions@.len() == old(self).settings.num_agents as int
                && old(self).step_request@ is Some),
            (outcome is Accepted) == (actions@.len() == old(self).settings.num_agents as int && old(
                self,
            ).step_request@ is None),
            outcome is Accepted ==> final(self).step_request@ == Some(actions),
            !(outcome is Accepted) ==> final(self).step_request@ == old(self).step_request@,
            final(self).reset_request@ == old(self).reset_request@,
            final(self).step_result@ == old(self).step_result@,
            final(self).reset_result@ == old(self).reset_result@,
            old(self).same_bookkeeping(*final(self)),
            final(self).settings == old(self).settings,
    {
        if actions.len() != self.settings.num_agents as usize {
            return StepSubmitOutcome::WrongActionCount;
        }
        if self.step_request.try_send(actions) {
            StepSubmitOutcome::Accepted
        } else {
            StepSubmitOutcome::AlreadyPending
        }
    }

    /// Queue a reset request from the network side; report whether it was
    /// queued (false: an earlier reset request is still pending, and is
    /// kept).
    pub fn submit_reset_request(&mut self) -> (queued: bool)
        requires
            old(self).wf(),
        ensures
            final(self).wf(),
            queued == (old(self).reset_request@ is None),
            final(self).reset_request@ == deliver(old(self).reset_request@, true),
            final(self).step_request@ == old(self).step_request@,
            final(self).step_result@ == old(self).step_result@,
            final(self).reset_result@ == old(self).reset_result@,
            old(self).same_bookkeeping(*final(self)),
            final(self).settings == old(self).settings,
    {
        self.reset_request.try_send(true)
    }

    /// Consume the step result, if one has been delivered: the network
    /// side polls this until the host answers its step request.
    pub fn take_step_result(&mut self) -> (results: Option<Vec<bool>>)
        requires
            old(self).wf(),
        ensures
            final(self).wf(),
            results == old(self).step_result@,
            results matches Some(r) ==> r@.len() == final(self).settings.num_agents as int,
            final(self).step_result@ is None,
            final(self).step_request@ == old(self).step_request@,
            final(self).reset_request@ == old(self).reset_request@,
            final(self).reset_result@ == old(self).reset_result@,
            old(self).same_bookkeeping(*final(self)),
            final(self).settings == old(self).settings,
    {
        self.step_result.try_receive()
    }

    /// Consume the reset result, if one has been delivered: the network
    /// side polls this until the host answers its reset request.
    pub fn take_reset_result(&mut self) -> (result: Option<bool>)
        requires
            old(self).wf(),
        ensures
            final(self).wf(),
            result == old(self).reset_result@,
            final(self).reset_result@ is None,
            final(self).step_request@ == old(self).step_request@,
            final(self).reset_request@ == old(self).reset_request@,
            final(self).step_result@ == old(self).step_result@,
            old(self).same_bookkeeping(*final(self)),
            final(self).settings == old(self).settings,
    {
        self.reset_result.try_receive()
    }
}

} // verus!

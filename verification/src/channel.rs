//! Single-slot rendezvous channels.
//!
//! Each request/result hand-off between the network side and the tick loop
//! goes through one capacity-1 slot: a value sent once is observed exactly
//! once, a send into an occupied slot is absorbed without overwriting, and
//! emptiness can be polled without consuming. The network side realizes
//! its blocking receive by polling [`RendezvousSlot::try_receive`] under
//! the record's lock until a value arrives.

use vstd::prelude::*;

verus! {

/// A capacity-1 hand-off slot. Its view is the queued value, if any.
pub struct RendezvousSlot<T> {
    value: Option<T>,
}

impl<T> View for RendezvousSlot<T> {
    type V = Option<T>;

    closed spec fn view(&self) -> Option<T> {
        self.value
    }
}

/// The single-slot delivery discipline: a value lands in the slot only
/// when the slot is free; delivering into an occupied slot is a no-op
/// that keeps the value already queued.
pub open spec fn deliver<T>(slot: Option<T>, v: T) -> Option<T> {
    if slot is None {
        Some(v)
    } else {
        slot
    }
}

/// At-most-one delivery law: delivering twice in a row without an
/// intervening receive queues only the first value; the second delivery
/// changes nothing, and the first value is not lost. This is the
/// discipline every result-sending operation of the shared record
/// ([`crate::state::AIGymStateInner::send_step_result`],
/// [`crate::state::AIGymStateInner::send_reset_result`]) follows.
pub proof fn lemma_at_most_one_delivery<T>(slot: Option<T>, first: T, second: T)
    requires
        slot is None,
    ensures
        deliver(slot, first) == Some(first),
        deliver(deliver(slot, first), second) == deliver(slot, first),
{
}

impl<T> RendezvousSlot<T> {
    /// A fresh, empty slot.
    pub fn empty() -> (slot: Self)
        ensures
            slot@ is None,
    {
        RendezvousSlot { value: None }
    }

    /// Non-blocking peek: whether no value is queued.
    pub fn is_empty(&self) -> (r: bool)
        ensures
            r == (self@ is None),
    {
        self.value.is_none()
    }

    /// Queue `v` if the slot is free; report whether it was queued. A
    /// send into an occupied slot leaves the queued value in place and
    /// discards `v`.
    pub fn try_send(&mut self, v: T) -> (accepted: bool)
        ensures
            accepted == (old(self)@ is None),
            final(self)@ == deliver(old(self)@, v),
    {
        if self.value.is_none() {
            self.value = Some(v);
            true
        } else {
            false
        }
    }

    /// Consume the queued value, if any: a value sent once is observed
    /// exactly once. Non-blocking.
    pub fn try_receive(&mut self) -> (r: Option<T>)
        ensures
            r == old(self)@,
            final(self)@ is None,
    {
        self.value.take()
    }
}

} // verus!

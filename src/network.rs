//! The AT transmitter's handling of unsolicited notifications: one that no
//! handler takes is left at the head of the queue for a few more tries, so
//! that a handler registered a little later can still take it, and then
//! dropped so that it cannot block the queue.
use vstd::prelude::*;
use crate::command::ContextId;

verus! {

pub struct AtTx<C> {
    urc_attempts: u8,
    max_urc_attempts: u8,
    client: C,
}

impl<C> AtTx<C> {
    /// How many times in a row the notification at the head went unhandled.
    pub closed spec fn attempts(&self) -> nat {
        self.urc_attempts as nat
    }

    pub closed spec fn max_attempts(&self) -> nat {
        self.max_urc_attempts as nat
    }

    pub closed spec fn spec_client(&self) -> C {
        self.client
    }

    pub open spec fn wf(&self) -> bool {
        self.attempts() <= self.max_attempts()
    }

    pub fn new(client: C, max_urc_attempts: u8) -> (r: Self)
        ensures
            r.wf(),
            r.attempts() == 0,
            r.max_attempts() == max_urc_attempts,
            r.spec_client() == client,
    {
        AtTx { urc_attempts: 0, max_urc_attempts, client }
    }

    /// Whether the notification at the head of the queue is taken off it,
    /// given whether a handler took it: it is once handled, or once it has
    /// gone unhandled `max_urc_attempts` times before.
    pub fn handle_urc(&mut self, handled: bool) -> (dequeue: bool)
        requires
            old(self).wf(),
        ensures
            final(self).wf(),
            dequeue == (handled || old(self).attempts() >= old(self).max_attempts()),
            dequeue ==> final(self).attempts() == 0,
            !dequeue ==> final(self).attempts() == old(self).attempts() + 1,
            final(self).max_attempts() == old(self).max_attempts(),
            final(self).spec_client() == old(self).spec_client(),
    {
        if !handled {
            let a = self.urc_attempts;
            if a < self.max_urc_attempts {
                self.urc_attempts = a + 1;
                return false;
            }
        }
        self.urc_attempts = 0;
        true
    }

    pub fn client(&self) -> (r: &C)
        ensures
            *r == self.spec_client(),
    {
        &self.client
    }
}

/// The state of a packet-switched profile.
#[derive(Clone, Copy, Debug, PartialEq, Eq, Structural)]
pub enum ProfileState {
    Unknown,
    Deactivated,
    Activating(ContextId),
    Active(ContextId),
}

/// Whether `state` is the profile active on context `cid`.
pub fn context_active(state: &ProfileState, cid: ContextId) -> (r: bool)
    ensures
        r == (*state == ProfileState::Active(cid)),
{
    match state {
        ProfileState::Active(active) => active.0 == cid.0,
        _ => false,
    }
}

/// A profile that was being activated, now active.
pub fn finish_activating(state: &ProfileState) -> (r: Option<ProfileState>)
    ensures
        match *state {
            ProfileState::Activating(cid) => r == Some(ProfileState::Active(cid)),
            _ => r is None,
        },
{
    match state {
        ProfileState::Activating(cid) => Some(ProfileState::Active(*cid)),
        _ => None,
    }
}

} // verus!

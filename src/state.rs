use vstd::prelude::*;
use crate::broadcast::Broadcast;
use crate::error::Error;
use crate::urc::{link_of, Urc};

verus! {

/// The link state of the packet-data connection.
#[derive(Clone, Copy, Debug, PartialEq, Eq, Structural)]
pub enum LinkState {
    Down,
    Up,
}

/// How far the modem has been brought up; the variants are ordered as the
/// stages that are entered one after another.
#[derive(Clone, Copy, Debug, PartialEq, Eq, Structural)]
pub enum OperationState {
    PowerDown,
    PowerUp,
    Alive,
    Initialized,
    Connected,
    DataEstablished,
}

/// The position of a stage in the bring-up order.
pub open spec fn stage_index(s: OperationState) -> int {
    match s {
        OperationState::PowerDown => 0,
        OperationState::PowerUp => 1,
        OperationState::Alive => 2,
        OperationState::Initialized => 3,
        OperationState::Connected => 4,
        OperationState::DataEstablished => 5,
    }
}

/// The stage at position `i` of the bring-up order.
pub open spec fn stage_at(i: int) -> OperationState {
    if i <= 0 {
        OperationState::PowerDown
    } else if i == 1 {
        OperationState::PowerUp
    } else if i == 2 {
        OperationState::Alive
    } else if i == 3 {
        OperationState::Initialized
    } else if i == 4 {
        OperationState::Connected
    } else {
        OperationState::DataEstablished
    }
}

impl OperationState {
    /// The stage at position `state` of the bring-up order, if there is one.
    pub fn try_from(state: isize) -> (r: Result<OperationState, ()>)
        ensures
            r is Ok <==> 0 <= state <= 5,
            r matches Ok(s) ==> stage_index(s) == state && s == stage_at(state as int),
    {
        match state {
            0 => Ok(OperationState::PowerDown),
            1 => Ok(OperationState::PowerUp),
            2 => Ok(OperationState::Alive),
            3 => Ok(OperationState::Initialized),
            4 => Ok(OperationState::Connected),
            5 => Ok(OperationState::DataEstablished),
            _ => Err(()),
        }
    }

    /// The stage's position in the bring-up order.
    pub fn index(&self) -> (r: u8)
        ensures
            r as int == stage_index(*self),
    {
        match self {
            OperationState::PowerDown => 0,
            OperationState::PowerUp => 1,
            OperationState::Alive => 2,
            OperationState::Initialized => 3,
            OperationState::Connected => 4,
            OperationState::DataEstablished => 5,
        }
    }
}

/// How many desired-state listeners may subscribe.
pub const MAX_STATE_LISTENERS: usize = 5;

/// The state that the lifecycle runner, the network stack and the user's
/// handle share: the link state, how far the modem is up, and how far it
/// should be. Every desired state that is set is also published, so that the
/// runner sees setting the current value again as a request of its own.
pub struct Shared {
    link_state: Option<LinkState>,
    power_state: OperationState,
    desired_state: OperationState,
    desired: Broadcast<OperationState>,
}

impl Shared {
    pub closed spec fn link(&self) -> Option<LinkState> {
        self.link_state
    }

    pub closed spec fn power(&self) -> OperationState {
        self.power_state
    }

    pub closed spec fn desired(&self) -> OperationState {
        self.desired_state
    }

    /// The desired-state channel.
    pub closed spec fn channel(&self) -> Broadcast<OperationState> {
        self.desired
    }

    pub closed spec fn wf(&self) -> bool {
        &&& self.desired.wf()
        &&& self.desired.max_subscribers() == MAX_STATE_LISTENERS
    }

    /// Link unknown, modem powered down and meant to stay so, nothing published.
    pub fn new() -> (r: Shared)
        ensures
            r.wf(),
            r.link() == None::<LinkState>,
            r.power() == OperationState::PowerDown,
            r.desired() == OperationState::PowerDown,
            r.channel().published() == Seq::<OperationState>::empty(),
            r.channel().subscriber_count() == 0,
    {
        Shared {
            link_state: None,
            power_state: OperationState::PowerDown,
            desired_state: OperationState::PowerDown,
            desired: Broadcast::new(1, MAX_STATE_LISTENERS),
        }
    }

    pub fn link_state(&self) -> (r: Option<LinkState>)
        ensures
            r == self.link(),
    {
        self.link_state
    }

    pub fn power_state(&self) -> (r: OperationState)
        ensures
            r == self.power(),
    {
        self.power_state
    }

    pub fn desired_state(&self) -> (r: OperationState)
        ensures
            r == self.desired(),
    {
        self.desired_state
    }

    pub fn set_link_state(&mut self, state: Option<LinkState>)
        requires
            old(self).wf(),
        ensures
            final(self).wf(),
            final(self).link() == state,
            final(self).power() == old(self).power(),
            final(self).desired() == old(self).desired(),
            final(self).channel() == old(self).channel(),
    {
        self.link_state = state;
    }

    pub fn set_power_state(&mut self, state: OperationState)
        requires
            old(self).wf(),
        ensures
            final(self).wf(),
            final(self).power() == state,
            final(self).link() == old(self).link(),
            final(self).desired() == old(self).desired(),
            final(self).channel() == old(self).channel(),
    {
        self.power_state = state;
    }

    /// Sets the desired state and publishes it, also when it is unchanged.
    pub fn set_desired_state(&mut self, ps: OperationState)
        requires
            old(self).wf(),
            old(self).channel().published().len() < u64::MAX,
        ensures
            final(self).wf(),
            final(self).desired() == ps,
            final(self).power() == old(self).power(),
            final(self).link() == old(self).link(),
            final(self).channel().published() == old(self).channel().published().push(ps),
            final(self).channel().subscriber_count() == old(self).channel().subscriber_count(),
            forall|i: int|
                0 <= i < old(self).channel().subscriber_count() ==> final(self).channel().cursor(i)
                    == old(self).channel().cursor(i),
    {
        self.desired_state = ps;
        self.desired.publish(ps);
    }

    /// Asks for `ps` so that the modem is brought there afresh: where it is
    /// there already, the power state is first set back to `PowerDown`.
    pub fn set_desired_state_and_restart(&mut self, ps: OperationState)
        requires
            old(self).wf(),
            old(self).channel().published().len() < u64::MAX,
        ensures
            final(self).wf(),
            final(self).desired() == ps,
            old(self).power() == ps ==> final(self).power() == OperationState::PowerDown,
            old(self).power() != ps ==> final(self).power() == old(self).power(),
            final(self).link() == old(self).link(),
            final(self).channel().published() == old(self).channel().published().push(ps),
    {
        if self.power_state == ps {
            self.set_power_state(OperationState::PowerDown);
        }
        self.set_desired_state(ps);
    }

    /// Adds a listener of desired-state changes.
    pub fn subscribe_desired(&mut self) -> (r: Result<usize, Error>)
        requires
            old(self).wf(),
        ensures
            final(self).wf(),
            final(self).power() == old(self).power(),
            final(self).desired() == old(self).desired(),
            final(self).link() == old(self).link(),
            final(self).channel().published() == old(self).channel().published(),
            r is Ok <==> old(self).channel().subscriber_count() < MAX_STATE_LISTENERS,
            r matches Err(e) ==> e == Error::SubscriberOverflow,
            r matches Ok(sub) ==> sub == old(self).channel().subscriber_count()
                && final(self).channel().subscriber_count() == sub + 1,
    {
        match self.desired.subscribe() {
            Ok(sub) => Ok(sub),
            Err(_) => Err(Error::SubscriberOverflow),
        }
    }

    /// The next desired state published for listener `sub`, if any.
    pub fn next_desired(&mut self, sub: usize) -> (r: Option<OperationState>)
        requires
            old(self).wf(),
            sub < old(self).channel().subscriber_count(),
        ensures
            final(self).wf(),
            final(self).power() == old(self).power(),
            final(self).desired() == old(self).desired(),
            final(self).link() == old(self).link(),
            final(self).channel().published() == old(self).channel().published(),
            final(self).channel().subscriber_count() == old(self).channel().subscriber_count(),
            ({
                let ch = old(self).channel();
                let k = if ch.cursor(sub as int) < ch.oldest() {
                    ch.oldest()
                } else {
                    ch.cursor(sub as int)
                };
                &&& (k < ch.published().len() ==> r == Some(ch.published()[k])
                    && final(self).channel().cursor(sub as int) == k + 1)
                &&& (k >= ch.published().len() ==> r is None
                    && final(self).channel().cursor(sub as int) == ch.cursor(sub as int))
            }),
    {
        match self.desired.try_next(sub) {
            Some(k) => Some(*self.desired.message(k)),
            None => None,
        }
    }

    /// What the runner does with a notification: a change of the packet-data
    /// call sets the link state; socket notifications are the stack's.
    pub fn handle_urc(&mut self, event: &Urc)
        requires
            old(self).wf(),
        ensures
            final(self).wf(),
            final(self).power() == old(self).power(),
            final(self).desired() == old(self).desired(),
            final(self).channel() == old(self).channel(),
            match event {
                Urc::DataConnectionActivated(dca) => final(self).link() == link_of(dca.sc),
                _ => final(self).link() == old(self).link(),
            },
    {
        match event {
            Urc::DataConnectionActivated(dca) => self.set_link_state(dca.sc.link_state()),
            _ => {},
        }
    }
}

} // verus!

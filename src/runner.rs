//! The decisions inside the runner's stage entry actions. Each one takes what
//! the last exchange with the modem showed and says what to do next; the
//! runner performs it, waits where it is told to, and asks again.
use vstd::prelude::*;
use crate::command::{GPRSNetworkRegistrationStat, OperatorSelectionMode};
use crate::error::Error;
use crate::state::LinkState;
use crate::timing::alive_timeout;

verus! {

/// How often the PIN status is read before the SIM is cycled.
pub const SIM_ATTEMPTS: u8 = 2;

/// How many times the attach status is read before giving up.
pub const ATTACH_ROUNDS: u8 = 10;

/// How many seconds registration is waited for, polling once a second.
pub const REGISTRATION_SECONDS: u8 = 50;

/// How many times the packet-data context is configured before giving up.
pub const ACTIVATION_ATTEMPTS: u8 = 3;

/// Hardware flow control on the UART.
#[derive(Clone, Copy, Debug, PartialEq, Eq, Structural)]
pub enum FlowControl {
    Disabled,
    RtsCts,
}

/// The flow control the modem is told to use.
pub fn flow_control_for(enabled: bool) -> (r: FlowControl)
    ensures
        r == (if enabled {
            FlowControl::RtsCts
        } else {
            FlowControl::Disabled
        }),
{
    if enabled {
        FlowControl::RtsCts
    } else {
        FlowControl::Disabled
    }
}

/// Whether automatic operator selection must be set: whenever the modem is
/// not in automatic selection already.
pub fn should_select_operator(mode: OperatorSelectionMode) -> (r: bool)
    ensures
        r == (mode != OperatorSelectionMode::Automatic),
{
    match mode {
        OperatorSelectionMode::Automatic => false,
        _ => true,
    }
}

/// What follows a PIN status read.
#[derive(Clone, Copy, Debug, PartialEq, Eq, Structural)]
pub enum SimStep {
    /// The SIM is ready.
    Ready,
    /// Wait a second and read again.
    Retry,
    /// Wait a second, then switch the modem's functions off and on again.
    Cycle,
}

/// After read number `attempt` (from 0) found the SIM `ready` or not.
pub fn sim_step(attempt: u8, ready: bool) -> (r: SimStep)
    ensures
        ready ==> r == SimStep::Ready,
        !ready && attempt + 1 < SIM_ATTEMPTS ==> r == SimStep::Retry,
        !ready && attempt + 1 >= SIM_ATTEMPTS ==> r == SimStep::Cycle,
{
    if ready {
        SimStep::Ready
    } else if attempt < SIM_ATTEMPTS - 1 {
        SimStep::Retry
    } else {
        SimStep::Cycle
    }
}

/// How a SIM that was not ready ends, once the modem's functions were cycled
/// (`cycled` tells whether both commands went through): a SIM that cannot be
/// brought back this way leaves the modem unusable.
pub fn sim_cycle_result(cycled: bool) -> (r: Result<(), Error>)
    ensures
        cycled ==> r == Ok::<(), Error>(()),
        !cycled ==> r == Err::<(), Error>(Error::PoweredDown),
{
    if cycled {
        Ok(())
    } else {
        Err(Error::PoweredDown)
    }
}

/// How often `AT` is sent while waiting for the modem to answer, in ms.
pub const ALIVE_POLL_MS: u64 = 100;

/// What follows one poll of the modem.
#[derive(Clone, Copy, Debug, PartialEq, Eq, Structural)]
pub enum PollStep {
    /// The awaited condition holds.
    Done,
    /// Wait and read again.
    Wait,
    /// Give up with this error.
    Fail(Error),
}

/// After an `AT` probe sent `waited` ms into the wait, which the modem
/// `answered` or not: an answer ends the wait; without one the probe is sent
/// again after `ALIVE_POLL_MS`, until twice the boot time has gone by, and
/// then the stage times out.
pub fn alive_step(waited: u64, answered: bool) -> (r: PollStep)
    ensures
        answered ==> r == PollStep::Done,
        !answered && waited + ALIVE_POLL_MS < 2 * 10000 ==> r == PollStep::Wait,
        !answered && waited + ALIVE_POLL_MS >= 2 * 10000 ==> r == PollStep::Fail(Error::StateTimeout),
{
    if answered {
        PollStep::Done
    } else if waited < alive_timeout() - ALIVE_POLL_MS {
        PollStep::Wait
    } else {
        PollStep::Fail(Error::StateTimeout)
    }
}

/// After the registration status read `elapsed` seconds into the wait gave
/// `stat`: registered (home or roaming) ends the wait; after the last second
/// the stage times out.
pub fn registration_step(elapsed: u8, stat: GPRSNetworkRegistrationStat) -> (r: PollStep)
    ensures
        stat.spec_is_registered() ==> r == PollStep::Done,
        !stat.spec_is_registered() && elapsed + 1 < REGISTRATION_SECONDS ==> r == PollStep::Wait,
        !stat.spec_is_registered() && elapsed + 1 >= REGISTRATION_SECONDS ==> r == PollStep::Fail(
            Error::StateTimeout,
        ),
{
    if stat.is_registered() {
        PollStep::Done
    } else if elapsed < REGISTRATION_SECONDS - 1 {
        PollStep::Wait
    } else {
        PollStep::Fail(Error::StateTimeout)
    }
}

/// After attach-status read number `round` (from 0) found the modem
/// `attached` or not.
pub fn attach_step(round: u8, attached: bool) -> (r: PollStep)
    ensures
        attached ==> r == PollStep::Done,
        !attached && round + 1 < ATTACH_ROUNDS ==> r == PollStep::Wait,
        !attached && round + 1 >= ATTACH_ROUNDS ==> r == PollStep::Fail(Error::AttachTimeout),
{
    if attached {
        PollStep::Done
    } else if round < ATTACH_ROUNDS - 1 {
        PollStep::Wait
    } else {
        PollStep::Fail(Error::AttachTimeout)
    }
}

/// What follows a look at the link while the context is activated.
#[derive(Clone, Copy, Debug, PartialEq, Eq, Structural)]
pub enum ActivationStep {
    /// The link is up: the stage is reached.
    Done,
    /// Send the packet-switched configuration with the access point name,
    /// then wait for the call status.
    Configure,
    /// Give up with this error.
    Fail(Error),
}

/// At attempt `attempt` (from 0), with the link seen as `link` and an access
/// point name given or not.
pub fn activation_step(attempt: u8, link: Option<LinkState>, apn_given: bool) -> (r: ActivationStep)
    ensures
        link == Some(LinkState::Up) ==> r == ActivationStep::Done,
        link != Some(LinkState::Up) && apn_given && attempt < ACTIVATION_ATTEMPTS ==> r
            == ActivationStep::Configure,
        link != Some(LinkState::Up) && !(apn_given && attempt < ACTIVATION_ATTEMPTS) ==> r
            == ActivationStep::Fail(Error::ContextActivationTimeout),
{
    match link {
        Some(LinkState::Up) => ActivationStep::Done,
        _ => {
            if apn_given && attempt < ACTIVATION_ATTEMPTS {
                ActivationStep::Configure
            } else {
                ActivationStep::Fail(Error::ContextActivationTimeout)
            }
        },
    }
}

} // verus!

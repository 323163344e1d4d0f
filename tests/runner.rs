use ublox_cellular::command::{GPRSNetworkRegistrationStat, OperatorSelectionMode};
use ublox_cellular::error::Error;
use ublox_cellular::runner::{
    activation_step, attach_step, flow_control_for, registration_step, should_select_operator,
    sim_step, ActivationStep, FlowControl, PollStep, SimStep,
};
use ublox_cellular::runner::{alive_step, sim_cycle_result};
use ublox_cellular::state::LinkState;

#[test]
fn registration_is_polled_until_registered() {
    assert_eq!(registration_step(0, GPRSNetworkRegistrationStat::NotRegisteredSearching), PollStep::Wait);
    assert_eq!(registration_step(2, GPRSNetworkRegistrationStat::Registered), PollStep::Done);
    assert_eq!(registration_step(3, GPRSNetworkRegistrationStat::RegisteredRoaming), PollStep::Done);
    assert_eq!(registration_step(48, GPRSNetworkRegistrationStat::Unknown), PollStep::Wait);
    assert_eq!(
        registration_step(49, GPRSNetworkRegistrationStat::Unknown),
        PollStep::Fail(Error::StateTimeout)
    );
}

#[test]
fn attach_gives_up_after_ten_rounds() {
    assert_eq!(attach_step(0, true), PollStep::Done);
    assert_eq!(attach_step(8, false), PollStep::Wait);
    assert_eq!(attach_step(9, false), PollStep::Fail(Error::AttachTimeout));
}

#[test]
fn sim_is_read_twice_then_cycled() {
    assert_eq!(sim_step(0, true), SimStep::Ready);
    assert_eq!(sim_step(0, false), SimStep::Retry);
    assert_eq!(sim_step(1, false), SimStep::Cycle);
}

#[test]
fn context_activation() {
    assert_eq!(activation_step(0, Some(LinkState::Up), true), ActivationStep::Done);
    assert_eq!(activation_step(0, Some(LinkState::Down), true), ActivationStep::Configure);
    assert_eq!(activation_step(2, None, true), ActivationStep::Configure);
    assert_eq!(activation_step(3, None, true), ActivationStep::Fail(Error::ContextActivationTimeout));
    assert_eq!(activation_step(0, Some(LinkState::Down), false), ActivationStep::Fail(Error::ContextActivationTimeout));
}

#[test]
fn operator_and_flow_control() {
    assert!(!should_select_operator(OperatorSelectionMode::Automatic));
    assert!(should_select_operator(OperatorSelectionMode::Manual));
    assert!(should_select_operator(OperatorSelectionMode::ManualAutomatic));
    assert!(should_select_operator(OperatorSelectionMode::Deregister));
    assert_eq!(flow_control_for(true), FlowControl::RtsCts);
    assert_eq!(flow_control_for(false), FlowControl::Disabled);
}

#[test]
fn unrecoverable_sim_powers_down() {
    assert_eq!(sim_cycle_result(true), Ok(()));
    assert_eq!(sim_cycle_result(false), Err(Error::PoweredDown));
}

#[test]
fn alive_is_polled_for_twice_the_boot_time() {
    assert_eq!(alive_step(0, true), PollStep::Done);
    assert_eq!(alive_step(0, false), PollStep::Wait);
    assert_eq!(alive_step(19_800, false), PollStep::Wait);
    assert_eq!(alive_step(19_900, false), PollStep::Fail(Error::StateTimeout));
}

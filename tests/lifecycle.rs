use ublox_cellular::lifecycle::{initial_power_state, stage_after, Convergence, StepAction};
use ublox_cellular::state::{OperationState, Shared};
use ublox_cellular::timing::{alive_timeout, boot_time, pwr_off_time, pwr_on_time, reset_time};

fn run_to_end(c: &mut Convergence) -> Vec<StepAction> {
    let mut seen = Vec::new();
    loop {
        let a = c.next_action();
        seen.push(a);
        if a == StepAction::Finished {
            return seen;
        }
        c.step_done();
    }
}

#[test]
fn cold_start_traverses_every_stage_in_order() {
    let mut c = Convergence::new(OperationState::PowerDown, OperationState::DataEstablished);
    let mut samples = vec![c.reached];
    while c.next_action() != StepAction::Finished {
        c.step_done();
        samples.push(c.reached);
    }
    assert_eq!(
        samples,
        vec![
            OperationState::PowerDown,
            OperationState::PowerUp,
            OperationState::Alive,
            OperationState::Initialized,
            OperationState::Connected,
            OperationState::DataEstablished,
        ]
    );
}

#[test]
fn cold_power_up_to_alive() {
    let start = initial_power_state(Some(false));
    assert_eq!(start, OperationState::PowerDown);
    let mut c = Convergence::new(start, OperationState::Alive);
    assert_eq!(
        run_to_end(&mut c),
        vec![
            StepAction::Enter(OperationState::PowerUp),
            StepAction::Enter(OperationState::Alive),
            StepAction::Finished,
        ]
    );
    assert_eq!(c.reached, OperationState::Alive);
    assert_eq!(boot_time(), 10_000);
    assert_eq!(alive_timeout(), 20_000);
}

#[test]
fn asking_for_the_current_stage_goes_round_again() {
    let mut c = Convergence::new(OperationState::Connected, OperationState::Connected);
    assert_eq!(c.reached, OperationState::PowerDown);
    assert_eq!(
        run_to_end(&mut c),
        vec![
            StepAction::Enter(OperationState::PowerUp),
            StepAction::Enter(OperationState::Alive),
            StepAction::Enter(OperationState::Initialized),
            StepAction::Enter(OperationState::Connected),
            StepAction::Finished,
        ]
    );
}

#[test]
fn forced_retraversal_through_shared_state() {
    let mut shared = Shared::new();
    shared.set_power_state(OperationState::Connected);
    shared.set_desired_state_and_restart(OperationState::Connected);
    assert_eq!(shared.power_state(), OperationState::PowerDown);
    assert_eq!(shared.desired_state(), OperationState::Connected);
    let c = Convergence::new(shared.power_state(), shared.desired_state());
    assert_eq!(c.next_action(), StepAction::Enter(OperationState::PowerUp));
}

#[test]
fn going_down_pulses_power_first() {
    let mut c = Convergence::new(OperationState::Connected, OperationState::Alive);
    assert_eq!(
        run_to_end(&mut c),
        vec![
            StepAction::PowerOff,
            StepAction::Enter(OperationState::PowerUp),
            StepAction::Enter(OperationState::Alive),
            StepAction::Finished,
        ]
    );
    let mut d = Convergence::new(OperationState::PowerDown, OperationState::PowerDown);
    assert_eq!(run_to_end(&mut d), vec![StepAction::PowerOff, StepAction::Finished]);
}

#[test]
fn failure_restarts_from_power_down() {
    let mut c = Convergence::new(OperationState::PowerDown, OperationState::Initialized);
    c.step_done();
    c.step_done();
    assert_eq!(c.reached, OperationState::Alive);
    c.after_failure();
    assert_eq!(c.next_action(), StepAction::PowerOff);
    c.step_done();
    assert_eq!(c.next_action(), StepAction::Enter(OperationState::PowerUp));
}

#[test]
fn stage_numbers() {
    assert_eq!(OperationState::try_from(5isize), Ok(OperationState::DataEstablished));
    assert_eq!(OperationState::try_from(0isize), Ok(OperationState::PowerDown));
    assert_eq!(OperationState::try_from(6isize), Err(()));
    assert_eq!(OperationState::try_from(-1isize), Err(()));
    assert_eq!(OperationState::Initialized.index(), 3);
    assert_eq!(stage_after(OperationState::Alive), OperationState::Initialized);
    assert_eq!(initial_power_state(Some(true)), OperationState::PowerUp);
    assert_eq!(initial_power_state(None), OperationState::PowerDown);
}

#[test]
fn pin_timings() {
    assert_eq!(pwr_on_time(), 100);
    assert_eq!(pwr_off_time(), 3_000);
    assert_eq!(reset_time(), 200);
}

//! The decisions of the lifecycle runner: how the modem is brought from the
//! stage it is at to the stage that is desired.
//!
//! A traversal only moves up one stage at a time. To reach a stage at or
//! below the current one, the modem is first taken back to `PowerDown` (with
//! a power-off pulse where it has to go lower, or where `PowerDown` itself is
//! asked for again), and then brought up stage by stage. The runner asks
//! `next_action` what to do, does it, and reports success with `step_done`;
//! a failure ends the traversal, and `after_failure` starts it over from a
//! clean power-down.
use vstd::prelude::*;
use crate::state::{stage_at, stage_index, OperationState};

verus! {

/// What the runner does next.
#[derive(Clone, Copy, Debug, PartialEq, Eq, Structural)]
pub enum StepAction {
    /// Pulse the power pin to switch the modem off.
    PowerOff,
    /// Perform the entry action of this stage.
    Enter(OperationState),
    /// The desired stage is reached.
    Finished,
}

/// The stage after `s`.
pub open spec fn next_stage(s: OperationState) -> OperationState {
    stage_at(stage_index(s) + 1)
}

/// One traversal toward `target`.
#[derive(Clone, Copy, Debug, PartialEq, Eq, Structural)]
pub struct Convergence {
    pub target: OperationState,
    /// The stage the modem has been verified to be at.
    pub reached: OperationState,
    /// A power-off pulse is still owed before the modem is brought up.
    pub power_off_pending: bool,
}

/// The traversal that starts at `current` toward `target`.
pub open spec fn plan(current: OperationState, target: OperationState) -> Convergence {
    if stage_index(target) <= stage_index(current) {
        Convergence {
            target,
            reached: OperationState::PowerDown,
            power_off_pending: stage_index(target) < stage_index(current) || target
                == OperationState::PowerDown,
        }
    } else {
        Convergence { target, reached: current, power_off_pending: false }
    }
}

/// What the runner is asked to do in traversal `c`.
pub open spec fn action_of(c: Convergence) -> StepAction {
    if c.power_off_pending {
        StepAction::PowerOff
    } else if c.reached == c.target {
        StepAction::Finished
    } else {
        StepAction::Enter(next_stage(c.reached))
    }
}

/// Traversal `c` after its current action succeeded.
pub open spec fn step(c: Convergence) -> Convergence {
    if c.power_off_pending {
        Convergence { power_off_pending: false, ..c }
    } else if c.reached == c.target {
        c
    } else {
        Convergence { reached: next_stage(c.reached), ..c }
    }
}

/// Traversal `c` after `n` actions in a row succeeded.
pub open spec fn steps(c: Convergence, n: nat) -> Convergence
    decreases n,
{
    if n == 0 {
        c
    } else {
        steps(step(c), (n - 1) as nat)
    }
}

impl Convergence {
    /// The modem is never verified past the target.
    pub open spec fn wf(&self) -> bool {
        stage_index(self.reached) <= stage_index(self.target)
    }

    /// Starts a traversal from `current` toward `target`.
    pub fn new(current: OperationState, target: OperationState) -> (r: Convergence)
        ensures
            r == plan(current, target),
            r.wf(),
    {
        if target.index() <= current.index() {
            Convergence {
                target,
                reached: OperationState::PowerDown,
                power_off_pending: target.index() < current.index() || target
                    == OperationState::PowerDown,
            }
        } else {
            Convergence { target, reached: current, power_off_pending: false }
        }
    }

    /// What to do next.
    pub fn next_action(&self) -> (r: StepAction)
        requires
            self.wf(),
        ensures
            r == action_of(*self),
    {
        if self.power_off_pending {
            StepAction::PowerOff
        } else if self.reached == self.target {
            StepAction::Finished
        } else {
            StepAction::Enter(stage_after(self.reached))
        }
    }

    /// Records that the current action succeeded.
    pub fn step_done(&mut self)
        requires
            old(self).wf(),
        ensures
            final(self).wf(),
            *final(self) == step(*old(self)),
    {
        if self.power_off_pending {
            self.power_off_pending = false;
        } else if self.reached != self.target {
            self.reached = stage_after(self.reached);
        }
    }

    /// After a failed step: power off cleanly, then bring the modem up again
    /// from `PowerDown`.
    pub fn after_failure(&mut self)
        requires
            old(self).wf(),
        ensures
            final(self).wf(),
            final(self).target == old(self).target,
            final(self).reached == OperationState::PowerDown,
            final(self).power_off_pending,
    {
        self.reached = OperationState::PowerDown;
        self.power_off_pending = true;
    }
}

/// The stage after `s`.
pub fn stage_after(s: OperationState) -> (r: OperationState)
    requires
        s != OperationState::DataEstablished,
    ensures
        r == next_stage(s),
        stage_index(r) == stage_index(s) + 1,
{
    match s {
        OperationState::PowerDown => OperationState::PowerUp,
        OperationState::PowerUp => OperationState::Alive,
        OperationState::Alive => OperationState::Initialized,
        OperationState::Initialized => OperationState::Connected,
        _ => OperationState::DataEstablished,
    }
}

/// The power state the runner starts from: `PowerUp` where the modem is
/// seen to have power, `PowerDown` where it is not or where that cannot be
/// read.
pub fn initial_power_state(has_power: Option<bool>) -> (r: OperationState)
    ensures
        r == (if has_power == Some(true) {
            OperationState::PowerUp
        } else {
            OperationState::PowerDown
        }),
{
    match has_power {
        Some(true) => OperationState::PowerUp,
        _ => OperationState::PowerDown,
    }
}

proof fn lemma_stage_round_trip(s: OperationState)
    ensures
        stage_at(stage_index(s)) == s,
        0 <= stage_index(s) <= 5,
{
}

/// Once any power-off is done, each successful step enters exactly the next
/// stage: after `k` steps the modem is `k` stages further, never past the
/// target, and the traversal stays aimed at the same target.
pub proof fn lemma_monotone_traversal(c: Convergence, k: nat)
    requires
        c.wf(),
        !c.power_off_pending,
        k <= stage_index(c.target) - stage_index(c.reached),
    ensures
        stage_index(steps(c, k).reached) == stage_index(c.reached) + k,
        steps(c, k).target == c.target,
        !steps(c, k).power_off_pending,
        steps(c, k).wf(),
        k < stage_index(c.target) - stage_index(c.reached) ==> action_of(steps(c, k))
            == StepAction::Enter(stage_at(stage_index(c.reached) + k + 1)),
        k == stage_index(c.target) - stage_index(c.reached) ==> action_of(steps(c, k))
            == StepAction::Finished,
    decreases k,
{
    lemma_stage_round_trip(c.reached);
    lemma_stage_round_trip(c.target);
    if k > 0 {
        let c1 = step(c);
        assert(c.reached != c.target);
        assert(stage_index(c1.reached) == stage_index(c.reached) + 1);
        lemma_monotone_traversal(c1, (k - 1) as nat);
    } else {
        if stage_index(c.reached) < stage_index(c.target) {
            assert(c.reached != c.target);
        } else {
            assert(stage_index(c.reached) == stage_index(c.target));
            lemma_stage_round_trip(c.reached);
            assert(c.reached == c.target);
        }
    }
}

/// From `PowerDown` toward `DataEstablished`, the power states seen after
/// each step are the bring-up order itself, one stage at a time, with no
/// stage repeated or skipped; after the last one the traversal is finished.
pub proof fn lemma_cold_start_order(k: nat)
    requires
        k <= 5,
    ensures
        steps(plan(OperationState::PowerDown, OperationState::DataEstablished), k).reached
            == stage_at(k as int),
        k < 5 ==> action_of(
            steps(plan(OperationState::PowerDown, OperationState::DataEstablished), k),
        ) == StepAction::Enter(stage_at((k + 1) as int)),
        k == 5 ==> action_of(
            steps(plan(OperationState::PowerDown, OperationState::DataEstablished), k),
        ) == StepAction::Finished,
{
    let c = plan(OperationState::PowerDown, OperationState::DataEstablished);
    lemma_monotone_traversal(c, k);
    lemma_stage_round_trip(steps(c, k).reached);
}

/// Asking again for the stage the modem is at takes it back to `PowerDown`
/// and brings it up through every stage to that one again, just as when the
/// power state was first set back to `PowerDown` by hand. Only where that
/// stage is `PowerDown` itself is the modem switched off first.
pub proof fn lemma_forced_retraversal(s: OperationState, k: nat)
    requires
        k <= stage_index(s),
    ensures
        plan(s, s).reached == OperationState::PowerDown,
        s != OperationState::PowerDown ==> plan(OperationState::PowerDown, s) == plan(s, s),
        plan(s, s).power_off_pending <==> s == OperationState::PowerDown,
        s != OperationState::PowerDown ==> steps(plan(s, s), k).reached == stage_at(k as int),
        s != OperationState::PowerDown ==> action_of(steps(plan(s, s), stage_index(s) as nat))
            == StepAction::Finished,
{
    let c = plan(s, s);
    lemma_stage_round_trip(s);
    if s != OperationState::PowerDown {
        lemma_monotone_traversal(c, k);
        lemma_stage_round_trip(steps(c, k).reached);
        lemma_monotone_traversal(c, stage_index(s) as nat);
    }
}

} // verus!

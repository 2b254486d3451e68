use vstd::prelude::*;
use crate::outcome::{settle_prior, settle_prior_spec, StepFailure};
use crate::plan::{is_plan, plan_prior};
use crate::types::{ReplayError, TxHash, TxRecord};

verus! {

/// What the caller does next for the run.
#[derive(Clone, Copy, Debug, PartialEq, Eq, Structural)]
pub enum Action {
    /// Install the bytecode overrides into the backend.
    InstallOverrides,
    /// Execute the block's transaction at this position against the backend.
    ExecutePrior { index: usize },
    /// Execute the target transaction.
    ExecuteTarget,
    /// Stop: the run failed.
    Abort { error: ReplayError },
}

/// The decisions of one run, from the fork to the target's execution. The
/// caller owns the backend, performs each action that `next_action` names and
/// reports back; the driver keeps the order.
pub struct ReplayDriver {
    pub txs: Vec<TxRecord>,
    pub target: TxHash,
    pub block: u64,
    pub quick: bool,
    pub system_type: u64,
    pub plan: Vec<usize>,
    pub done: usize,
    pub overrides_pending: bool,
    pub failure: Option<ReplayError>,
}

impl ReplayDriver {
    pub open spec fn wf(&self) -> bool {
        &&& is_plan(self.txs@, self.target, self.quick, self.system_type, self.plan@)
        &&& self.done <= self.plan@.len()
    }

    /// The action that follows from the state: an abort once a step failed,
    /// then the overrides, then the planned prior transactions in order,
    /// then the target.
    pub open spec fn next_spec(&self) -> Action {
        if self.failure.is_some() {
            Action::Abort { error: self.failure.unwrap() }
        } else if self.overrides_pending {
            Action::InstallOverrides
        } else if self.done < self.plan@.len() {
            Action::ExecutePrior { index: self.plan@[self.done as int] }
        } else {
            Action::ExecuteTarget
        }
    }

    /// Starts a run on the block's transactions in mined order.
    pub fn new(
        txs: Vec<TxRecord>,
        target: TxHash,
        block: u64,
        quick: bool,
        system_type: u64,
        has_overrides: bool,
    ) -> (r: ReplayDriver)
        ensures
            r.wf(),
            r.txs == txs,
            r.target == target,
            r.block == block,
            r.quick == quick,
            r.system_type == system_type,
            r.done == 0,
            r.overrides_pending == has_overrides,
            r.failure.is_none(),
    {
        let plan = plan_prior(&txs, target, quick, system_type);
        ReplayDriver {
            txs,
            target,
            block,
            quick,
            system_type,
            plan,
            done: 0,
            overrides_pending: has_overrides,
            failure: None,
        }
    }

    /// The next action of the run.
    pub fn next_action(&self) -> (r: Action)
        requires
            self.wf(),
        ensures
            r == self.next_spec(),
            r matches Action::ExecutePrior { index } ==> index < self.txs@.len(),
    {
        match self.failure {
            Some(e) => Action::Abort { error: e },
            None => if self.overrides_pending {
                Action::InstallOverrides
            } else if self.done < self.plan.len() {
                Action::ExecutePrior { index: self.plan[self.done] }
            } else {
                Action::ExecuteTarget
            },
        }
    }

    /// Records that the overrides were installed.
    pub fn overrides_installed(&mut self)
        requires
            old(self).wf(),
        ensures
            final(self).wf(),
            *final(self) == (ReplayDriver { overrides_pending: false, ..*old(self) }),
    {
        self.overrides_pending = false;
    }

    /// Records what the backend answered for the prior transaction that
    /// `next_action` named, and moves on or stops.
    pub fn prior_executed(&mut self, res: Result<(), StepFailure>)
        requires
            old(self).wf(),
            old(self).next_spec() is ExecutePrior,
        ensures
            final(self).wf(),
            ({
                let tx = old(self).txs@[old(self).plan@[old(self).done as int] as int];
                match settle_prior_spec(tx, old(self).block, res) {
                    Ok(()) => *final(self) == (ReplayDriver { done: (old(self).done + 1) as usize, ..*old(self) }),
                    Err(e) => *final(self) == (ReplayDriver { failure: Some(e), ..*old(self) }),
                }
            }),
    {
        let n: usize = self.plan.len();
        assert(self.done < n);
        let index = self.plan[self.done];
        let tx = self.txs[index];
        match settle_prior(&tx, self.block, res) {
            Ok(()) => {
                self.done = self.done + 1;
            },
            Err(e) => {
                self.failure = Some(e);
            },
        }
    }
}

} // verus!

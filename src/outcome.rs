use vstd::prelude::*;
use crate::types::{ReplayError, TxKind, TxRecord};

verus! {

/// How an execution on the backend failed: the code reverted, or execution
/// itself could not go on.
#[derive(Clone, Copy, Debug, PartialEq, Eq, Structural)]
pub enum StepFailure {
    Revert,
    Fatal,
}

/// Whether the target transaction's execution succeeded or reverted.
#[derive(Clone, Copy, Debug, PartialEq, Eq, Structural)]
pub enum TargetStatus {
    Success,
    Reverted,
}

/// What the caller sees of the target transaction: its status and the
/// decoded console logs it emitted.
#[derive(Clone, Debug)]
pub struct TargetReport {
    pub status: TargetStatus,
    pub logs: Vec<String>,
}

/// The verdict on one prior transaction. A call that failed in any way
/// aborts the run; a creation that reverted is tolerated; one that failed
/// fatally aborts it. Both errors name the transaction and the block.
pub open spec fn settle_prior_spec(tx: TxRecord, block: u64, res: Result<(), StepFailure>) -> Result<
    (),
    ReplayError,
> {
    match res {
        Ok(()) => Ok(()),
        Err(f) => match tx.kind_spec() {
            TxKind::Call => Err(ReplayError::PriorCallFailed { hash: tx.hash, block }),
            TxKind::Create => if f == StepFailure::Revert {
                Ok(())
            } else {
                Err(ReplayError::PriorCreateFailed { hash: tx.hash, block })
            },
        },
    }
}

/// Decides whether the run goes on after a prior transaction was executed.
pub fn settle_prior(tx: &TxRecord, block: u64, res: Result<(), StepFailure>) -> (r: Result<
    (),
    ReplayError,
>)
    ensures
        r == settle_prior_spec(*tx, block, res),
{
    match res {
        Ok(()) => Ok(()),
        Err(f) => match tx.kind() {
            TxKind::Call => Err(ReplayError::PriorCallFailed { hash: tx.hash, block }),
            TxKind::Create => match f {
                StepFailure::Revert => Ok(()),
                StepFailure::Fatal => Err(ReplayError::PriorCreateFailed { hash: tx.hash, block }),
            },
        },
    }
}

/// The status surfaced for the target, or the error that ends the run.
/// `res` is what the backend answered: `Ok(reverted)` where execution
/// completed, else how it failed. A call that failed is an error; a creation
/// that reverted is reported as reverted, and one that failed fatally is an
/// error.
pub open spec fn target_status_spec(tx: TxRecord, block: u64, res: Result<bool, StepFailure>) -> Result<
    TargetStatus,
    ReplayError,
> {
    match res {
        Ok(reverted) => Ok(if reverted { TargetStatus::Reverted } else { TargetStatus::Success }),
        Err(f) => match tx.kind_spec() {
            TxKind::Call => Err(ReplayError::TargetCallFailed { hash: tx.hash, block }),
            TxKind::Create => if f == StepFailure::Revert {
                Ok(TargetStatus::Reverted)
            } else {
                Err(ReplayError::TargetCreateFailed { hash: tx.hash, block })
            },
        },
    }
}

/// Packages the target transaction's outcome with the logs it emitted.
/// Where the run ends in an error, the logs are dropped.
pub fn classify_target(
    tx: &TxRecord,
    block: u64,
    res: Result<bool, StepFailure>,
    logs: Vec<String>,
) -> (r: Result<TargetReport, ReplayError>)
    ensures
        match target_status_spec(*tx, block, res) {
            Ok(s) => r.is_ok() && r.unwrap().status == s && r.unwrap().logs@ == logs@,
            Err(e) => r == Err::<TargetReport, ReplayError>(e),
        },
{
    let status = match res {
        Ok(reverted) => if reverted {
            TargetStatus::Reverted
        } else {
            TargetStatus::Success
        },
        Err(f) => match tx.kind() {
            TxKind::Call => {
                return Err(ReplayError::TargetCallFailed { hash: tx.hash, block });
            },
            TxKind::Create => match f {
                StepFailure::Revert => TargetStatus::Reverted,
                StepFailure::Fatal => {
                    return Err(ReplayError::TargetCreateFailed { hash: tx.hash, block });
                },
            },
        },
    };
    Ok(TargetReport { status, logs })
}

} // verus!

use vstd::prelude::*;
use crate::types::{ReplayError, TxHash, TxRecord};

verus! {

/// The target of a run, with the block it was mined in.
pub open spec fn resolve_spec(
    hash: TxHash,
    found: Option<TxRecord>,
    system_type: u64,
) -> Result<(TxRecord, u64), ReplayError> {
    match found {
        None => Err(ReplayError::NotFound { hash }),
        Some(tx) => if tx.is_system(system_type) {
            Err(ReplayError::SystemTransaction { hash: tx.hash })
        } else {
            match tx.block_number {
                None => Err(ReplayError::Pending { hash }),
                Some(b) => Ok((tx, b)),
            }
        },
    }
}

/// Checks that the transaction that the provider returned for `hash` can be
/// replayed, and gives it back with its block number.
pub fn resolve_target(hash: TxHash, found: Option<TxRecord>, system_type: u64) -> (r: Result<
    (TxRecord, u64),
    ReplayError,
>)
    ensures
        r == resolve_spec(hash, found, system_type),
{
    match found {
        None => Err(ReplayError::NotFound { hash }),
        Some(tx) => {
            if tx.is_system_tx(system_type) {
                Err(ReplayError::SystemTransaction { hash: tx.hash })
            } else {
                match tx.block_number {
                    None => Err(ReplayError::Pending { hash }),
                    Some(b) => Ok((tx, b)),
                }
            }
        },
    }
}

} // verus!

use vstd::prelude::*;
use crate::driver::{Action, ReplayDriver};
use crate::plan::{is_plan, pick, prior_txs, without_system};
use crate::types::{TxHash, TxRecord};

verus! {

/// Where the target stands at position `k` and no earlier transaction that is
/// not a system transaction carries its hash, the transactions replayed before
/// it are exactly those at positions `0..k` that are not system transactions,
/// in mined order.
pub proof fn lemma_prefix_replayed_in_order(
    txs: Seq<TxRecord>,
    k: int,
    target: TxHash,
    system_type: u64,
)
    requires
        0 <= k < txs.len(),
        txs[k].hash == target,
        !txs[k].is_system(system_type),
        forall|j: int| 0 <= j < k ==> txs[j].is_system(system_type) || txs[j].hash != target,
    ensures
        prior_txs(txs, target, system_type) == without_system(txs.take(k), system_type),
    decreases k,
{
    if k == 0 {
        assert(txs.take(0) =~= Seq::<TxRecord>::empty());
    } else {
        let rest = txs.drop_first();
        assert(txs.take(k).drop_first() =~= rest.take(k - 1));
        assert(txs.take(k)[0] == txs[0]);
        assert forall|j: int| 0 <= j < k - 1 implies rest[j].is_system(system_type) || rest[j].hash
            != target by {
            assert(rest[j] == txs[j + 1]);
        }
        lemma_prefix_replayed_in_order(rest, k - 1, target, system_type);
    }
}

/// System transactions change nothing: replaying a block gives the same prior
/// transactions as replaying it with every system transaction taken out.
pub proof fn lemma_system_txs_skipped(txs: Seq<TxRecord>, target: TxHash, system_type: u64)
    ensures
        prior_txs(txs, target, system_type) == prior_txs(
            without_system(txs, system_type),
            target,
            system_type,
        ),
    decreases txs.len(),
{
    if txs.len() > 0 {
        let rest = txs.drop_first();
        lemma_system_txs_skipped(rest, target, system_type);
        if !txs[0].is_system(system_type) {
            let w = without_system(txs, system_type);
            assert(w[0] == txs[0]);
            assert(w.drop_first() =~= without_system(rest, system_type));
        }
    }
}

/// In quick mode a run never executes a transaction of the block before the
/// target: in every state its next action is something else.
pub proof fn lemma_quick_runs_target_only(d: ReplayDriver)
    requires
        d.wf(),
        d.quick,
    ensures
        !(d.next_spec() is ExecutePrior),
{
}

/// Overrides come before any replay: a run started with overrides first
/// installs them, and executes nothing while they are pending.
pub proof fn lemma_overrides_first(d: ReplayDriver)
    requires
        d.wf(),
        d.overrides_pending,
        d.failure.is_none(),
    ensures
        d.next_spec() == Action::InstallOverrides,
{
}

/// A replay is a function of its inputs: two plans for the same block,
/// target and mode replay the same transactions in the same order.
pub proof fn lemma_replay_deterministic(
    txs: Seq<TxRecord>,
    target: TxHash,
    quick: bool,
    system_type: u64,
    a: Seq<usize>,
    b: Seq<usize>,
)
    requires
        is_plan(txs, target, quick, system_type, a),
        is_plan(txs, target, quick, system_type, b),
    ensures
        pick(txs, a) == pick(txs, b),
{
    if quick {
        assert(pick(txs, a) =~= pick(txs, b));
    }
}

} // verus!

use vstd::prelude::*;
use crate::types::{TxHash, TxRecord};

verus! {

/// The transactions replayed before the target, in mined order: walking the
/// block, system transactions are skipped, the walk stops at the first other
/// transaction whose hash is the target's, and every other one is kept.
pub open spec fn prior_txs(txs: Seq<TxRecord>, target: TxHash, system_type: u64) -> Seq<TxRecord>
    decreases txs.len(),
{
    if txs.len() == 0 {
        Seq::empty()
    } else if txs[0].is_system(system_type) {
        prior_txs(txs.drop_first(), target, system_type)
    } else if txs[0].hash == target {
        Seq::empty()
    } else {
        seq![txs[0]] + prior_txs(txs.drop_first(), target, system_type)
    }
}

/// The block's transactions with every system transaction taken out.
pub open spec fn without_system(txs: Seq<TxRecord>, system_type: u64) -> Seq<TxRecord>
    decreases txs.len(),
{
    if txs.len() == 0 {
        Seq::empty()
    } else if txs[0].is_system(system_type) {
        without_system(txs.drop_first(), system_type)
    } else {
        seq![txs[0]] + without_system(txs.drop_first(), system_type)
    }
}

/// The records at the given positions, in the order of the positions.
pub open spec fn pick(txs: Seq<TxRecord>, idx: Seq<usize>) -> Seq<TxRecord> {
    idx.map_values(|i: usize| txs[i as int])
}

/// Positions that rise strictly and lie within a list of `n` items.
pub open spec fn ascending_below(idx: Seq<usize>, n: int) -> bool {
    &&& forall|i: int| 0 <= i < idx.len() ==> idx[i] < n
    &&& forall|i: int, j: int| 0 <= i < j < idx.len() ==> idx[i] < idx[j]
}

/// What a plan must be: in quick mode nothing runs before the target;
/// otherwise the positions of `prior_txs`, in order.
pub open spec fn is_plan(
    txs: Seq<TxRecord>,
    target: TxHash,
    quick: bool,
    system_type: u64,
    idx: Seq<usize>,
) -> bool {
    &&& ascending_below(idx, txs.len() as int)
    &&& if quick {
        idx.len() == 0
    } else {
        pick(txs, idx) == prior_txs(txs, target, system_type)
    }
}

/// The positions in the block of the transactions to replay before the
/// target, in the order they run. Empty in quick mode.
pub fn plan_prior(txs: &Vec<TxRecord>, target: TxHash, quick: bool, system_type: u64) -> (r: Vec<
    usize,
>)
    ensures
        is_plan(txs@, target, quick, system_type, r@),
{
    let mut r: Vec<usize> = Vec::new();
    if quick {
        return r;
    }
    let n = txs.len();
    let mut i: usize = 0;
    assert(txs@.subrange(0, n as int) =~= txs@);
    assert(pick(txs@, r@) + prior_txs(txs@, target, system_type) =~= prior_txs(txs@, target, system_type));
    while i < n
        invariant
            n == txs@.len(),
            !quick,
            i <= n,
            ascending_below(r@, i as int),
            pick(txs@, r@) + prior_txs(txs@.subrange(i as int, n as int), target, system_type)
                == prior_txs(txs@, target, system_type),
        decreases n - i,
    {
        let tx = txs[i];
        let ghost rest = txs@.subrange(i as int, n as int);
        assert(rest.drop_first() =~= txs@.subrange(i + 1, n as int));
        assert(rest[0] == tx);
        if tx.is_system_tx(system_type) {
            i = i + 1;
        } else if tx.hash == target {
            assert(prior_txs(rest, target, system_type) =~= Seq::<TxRecord>::empty());
            assert(pick(txs@, r@) + prior_txs(rest, target, system_type) =~= pick(txs@, r@));
            assert(ascending_below(r@, n as int));
            return r;
        } else {
            let ghost old_r = r@;
            r.push(i);
            assert(pick(txs@, r@) =~= pick(txs@, old_r) + seq![tx]);
            assert(pick(txs@, r@) + prior_txs(txs@.subrange(i + 1, n as int), target, system_type)
                =~= pick(txs@, old_r) + prior_txs(rest, target, system_type));
            i = i + 1;
        }
    }
    assert(txs@.subrange(n as int, n as int) =~= Seq::<TxRecord>::empty());
    assert(pick(txs@, r@) =~= prior_txs(txs@, target, system_type));
    r
}

} // verus!

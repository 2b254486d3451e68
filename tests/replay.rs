use cast_run::driver::{Action, ReplayDriver};
use cast_run::environment::{
    build_block_context, compute_units_per_second, fork_block_number, select_evm_version,
    BlockContext, BlockHeader,
};
use cast_run::outcome::{classify_target, settle_prior, StepFailure, TargetStatus};
use cast_run::plan::plan_prior;
use cast_run::resolver::resolve_target;
use cast_run::types::{Address, ReplayError, TxHash, TxKind, TxRecord, Word};

const SYSTEM_TYPE: u64 = 126;

fn h(n: u128) -> TxHash {
    TxHash { hi: 0, lo: n }
}

fn call(n: u128) -> TxRecord {
    TxRecord {
        hash: h(n),
        from_system_sender: false,
        to: Some(Address { hi: 0, lo: n + 1000 }),
        tx_type: Some(2),
        block_number: Some(100),
    }
}

fn create(n: u128) -> TxRecord {
    TxRecord { to: None, ..call(n) }
}

fn system_sender(n: u128) -> TxRecord {
    TxRecord { from_system_sender: true, ..call(n) }
}

fn system_typed(n: u128) -> TxRecord {
    TxRecord { tx_type: Some(SYSTEM_TYPE), ..call(n) }
}

fn w(n: u128) -> Word {
    Word { hi: 0, lo: n }
}

fn template() -> BlockContext {
    BlockContext {
        number: w(0),
        timestamp: w(1),
        coinbase: Address { hi: 0, lo: 0 },
        difficulty: w(2),
        prevrandao: None,
        basefee: w(3),
        gas_limit: w(4),
    }
}

fn header() -> BlockHeader {
    BlockHeader {
        timestamp: w(1_700_000_000),
        miner: Address { hi: 7, lo: 9 },
        difficulty: w(0),
        mix_hash: Some(w(55)),
        base_fee_per_gas: Some(w(30)),
        gas_limit: w(30_000_000),
        excess_blob_gas: None,
    }
}

#[test]
fn mixed_block_replays_call_tolerates_reverted_create() {
    let txs = vec![system_sender(1), call(2), create(3), call(4)];
    let mut d = ReplayDriver::new(txs, h(4), 100, false, SYSTEM_TYPE, false);
    assert_eq!(d.next_action(), Action::ExecutePrior { index: 1 });
    d.prior_executed(Ok(()));
    assert_eq!(d.next_action(), Action::ExecutePrior { index: 2 });
    d.prior_executed(Err(StepFailure::Revert));
    assert_eq!(d.next_action(), Action::ExecuteTarget);
    let report = classify_target(&call(4), 100, Ok(false), vec![]).unwrap();
    assert_eq!(report.status, TargetStatus::Success);
    assert!(report.logs.is_empty());
    let reverted = classify_target(&call(4), 100, Ok(true), vec!["x".to_string()]).unwrap();
    assert_eq!(reverted.status, TargetStatus::Reverted);
    assert_eq!(reverted.logs, vec!["x".to_string()]);
}

#[test]
fn plan_keeps_mined_order_up_to_target() {
    let txs = vec![call(1), create(2), call(3), call(4), call(5)];
    assert_eq!(plan_prior(&txs, h(4), false, SYSTEM_TYPE), vec![0, 1, 2]);
    assert_eq!(plan_prior(&txs, h(1), false, SYSTEM_TYPE), Vec::<usize>::new());
    assert_eq!(plan_prior(&txs, h(99), false, SYSTEM_TYPE), vec![0, 1, 2, 3, 4]);
}

#[test]
fn system_transactions_are_skipped() {
    let with = vec![system_sender(1), call(2), system_typed(3), call(4)];
    let without = vec![call(2), call(4)];
    let a = plan_prior(&with, h(4), false, SYSTEM_TYPE);
    let b = plan_prior(&without, h(4), false, SYSTEM_TYPE);
    assert_eq!(a, vec![1]);
    assert_eq!(b, vec![0]);
    assert_eq!(with[a[0]], without[b[0]]);
    let only_system = vec![system_sender(1), system_typed(2), call(4)];
    assert_eq!(plan_prior(&only_system, h(4), false, SYSTEM_TYPE), Vec::<usize>::new());
}

#[test]
fn quick_mode_executes_only_target() {
    let txs = vec![call(1), create(2), call(3)];
    assert!(plan_prior(&txs, h(3), true, SYSTEM_TYPE).is_empty());
    let d = ReplayDriver::new(txs, h(3), 100, true, SYSTEM_TYPE, false);
    assert_eq!(d.next_action(), Action::ExecuteTarget);
}

#[test]
fn reverted_prior_create_does_not_abort() {
    assert_eq!(settle_prior(&create(5), 100, Err(StepFailure::Revert)), Ok(()));
    let txs = vec![create(5), call(6)];
    let mut d = ReplayDriver::new(txs, h(6), 100, false, SYSTEM_TYPE, false);
    assert_eq!(d.next_action(), Action::ExecutePrior { index: 0 });
    d.prior_executed(Err(StepFailure::Revert));
    assert_eq!(d.next_action(), Action::ExecuteTarget);
}

#[test]
fn fatal_prior_create_aborts() {
    assert_eq!(
        settle_prior(&create(5), 100, Err(StepFailure::Fatal)),
        Err(ReplayError::PriorCreateFailed { hash: h(5), block: 100 })
    );
}

#[test]
fn failed_prior_call_aborts_with_hash_and_block() {
    for f in [StepFailure::Revert, StepFailure::Fatal] {
        let txs = vec![call(1), call(2), call(3)];
        let mut d = ReplayDriver::new(txs, h(3), 100, false, SYSTEM_TYPE, false);
        d.prior_executed(Ok(()));
        d.prior_executed(Err(f));
        let expected = ReplayError::PriorCallFailed { hash: h(2), block: 100 };
        assert_eq!(d.next_action(), Action::Abort { error: expected });
        assert_eq!(d.next_action(), Action::Abort { error: expected });
    }
}

#[test]
fn replay_is_repeatable() {
    let txs = vec![system_typed(1), call(2), create(3), call(4)];
    assert_eq!(
        plan_prior(&txs, h(4), false, SYSTEM_TYPE),
        plan_prior(&txs, h(4), false, SYSTEM_TYPE)
    );
    let a = classify_target(&call(4), 100, Ok(true), vec!["log".to_string()]).unwrap();
    let b = classify_target(&call(4), 100, Ok(true), vec!["log".to_string()]).unwrap();
    assert_eq!(a.status, b.status);
    assert_eq!(a.logs, b.logs);
}

#[test]
fn overrides_installed_before_first_step() {
    let txs = vec![call(1), call(2)];
    let mut d = ReplayDriver::new(txs, h(2), 100, false, SYSTEM_TYPE, true);
    assert_eq!(d.next_action(), Action::InstallOverrides);
    d.overrides_installed();
    assert_eq!(d.next_action(), Action::ExecutePrior { index: 0 });
}

#[test]
fn resolver_errors() {
    assert_eq!(
        resolve_target(h(9), None, SYSTEM_TYPE),
        Err(ReplayError::NotFound { hash: h(9) })
    );
    assert_eq!(
        resolve_target(h(1), Some(system_sender(1)), SYSTEM_TYPE),
        Err(ReplayError::SystemTransaction { hash: h(1) })
    );
    assert_eq!(
        resolve_target(h(1), Some(system_typed(1)), SYSTEM_TYPE),
        Err(ReplayError::SystemTransaction { hash: h(1) })
    );
    let pending = TxRecord { block_number: None, ..call(1) };
    assert_eq!(
        resolve_target(h(1), Some(pending), SYSTEM_TYPE),
        Err(ReplayError::Pending { hash: h(1) })
    );
    assert_eq!(resolve_target(h(1), Some(call(1)), SYSTEM_TYPE), Ok((call(1), 100)));
}

#[test]
fn target_failures() {
    assert_eq!(
        classify_target(&call(4), 100, Err(StepFailure::Fatal), vec![]).unwrap_err(),
        ReplayError::TargetCallFailed { hash: h(4), block: 100 }
    );
    assert_eq!(
        classify_target(&call(4), 100, Err(StepFailure::Revert), vec![]).unwrap_err(),
        ReplayError::TargetCallFailed { hash: h(4), block: 100 }
    );
    let failed = classify_target(&create(4), 100, Err(StepFailure::Revert), vec!["a".to_string()])
        .unwrap();
    assert_eq!(failed.status, TargetStatus::Reverted);
    assert_eq!(failed.logs, vec!["a".to_string()]);
    assert_eq!(
        classify_target(&create(4), 100, Err(StepFailure::Fatal), vec![]).unwrap_err(),
        ReplayError::TargetCreateFailed { hash: h(4), block: 100 }
    );
}

#[test]
fn kinds_and_system_checks() {
    assert_eq!(call(1).kind(), TxKind::Call);
    assert_eq!(create(1).kind(), TxKind::Create);
    assert!(system_sender(1).is_system_tx(SYSTEM_TYPE));
    assert!(system_typed(1).is_system_tx(SYSTEM_TYPE));
    assert!(!call(1).is_system_tx(SYSTEM_TYPE));
    let untyped = TxRecord { tx_type: None, ..call(1) };
    assert!(!untyped.is_system_tx(SYSTEM_TYPE));
}

#[test]
fn environment_from_header() {
    let ctx = build_block_context(template(), 100, Some(header()));
    assert_eq!(ctx.number, w(100));
    assert_eq!(ctx.timestamp, w(1_700_000_000));
    assert_eq!(ctx.coinbase, Address { hi: 7, lo: 9 });
    assert_eq!(ctx.prevrandao, Some(w(55)));
    assert_eq!(ctx.basefee, w(30));
    assert_eq!(ctx.gas_limit, w(30_000_000));
    let old = BlockHeader { mix_hash: None, base_fee_per_gas: None, ..header() };
    let ctx = build_block_context(template(), 100, Some(old));
    assert_eq!(ctx.prevrandao, Some(w(0)));
    assert_eq!(ctx.basefee, w(0));
    let ctx = build_block_context(template(), 100, None);
    assert_eq!(ctx, BlockContext { number: w(100), ..template() });
}

#[test]
fn fork_point_and_rate_limit() {
    assert_eq!(fork_block_number(100), Some(99));
    assert_eq!(fork_block_number(1), Some(0));
    assert_eq!(fork_block_number(0), None);
    assert_eq!(compute_units_per_second(true, Some(330)), Some(u64::MAX));
    assert_eq!(compute_units_per_second(false, Some(330)), Some(330));
    assert_eq!(compute_units_per_second(false, None), None);
}

#[test]
fn evm_version_inference() {
    let blob = BlockHeader { excess_blob_gas: Some(0), ..header() };
    assert_eq!(select_evm_version(Some("shanghai"), &Some(blob), "cancun"), Some("shanghai"));
    assert_eq!(select_evm_version(None, &Some(blob), "cancun"), Some("cancun"));
    assert_eq!(select_evm_version(None, &Some(header()), "cancun"), None);
    assert_eq!(select_evm_version(None::<&str>, &None, "cancun"), None);
}

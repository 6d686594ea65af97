use flywheel::engine::{execute_flywheel, ExecutionResult};
use flywheel::errors::{DepositError, FlywheelError};
use flywheel::lifecycle::{initialize_config, update_config};
use flywheel::state::{AccountId, FlywheelConfig};
use flywheel::swap::IdentitySwap;
use flywheel::vault::{deposit_fees, emergency_withdraw};

const ADMIN: AccountId = AccountId { value: 1 };
const MINT: AccountId = AccountId { value: 2 };
const FEE_VAULT: AccountId = AccountId { value: 3 };
const STRANGER: AccountId = AccountId { value: 4 };

fn fresh_config(buyback_bps: u16, burn_bps: u16) -> FlywheelConfig {
    let (cfg, _ev) = initialize_config(
        ADMIN, MINT, FEE_VAULT, buyback_bps, burn_bps, 1_000, 2_000, 60, None, 255, 900,
    )
    .expect("weights fit the whole");
    cfg
}

#[test]
fn scenario_full_cycle_burns_and_advances_ledger() {
    let mut cfg = fresh_config(5_000, 3_000);
    assert_eq!(cfg.lp_add_bps, 2_000);

    let mut vault: u64 = 0;
    let dep = deposit_fees(&mut vault, STRANGER, 1_000_000, 1_100).expect("positive amount");
    assert_eq!(dep.vault_balance, 1_000_000);
    assert_eq!(vault, 1_000_000);

    let out = execute_flywheel(&mut cfg, &mut vault, &IdentitySwap, STRANGER, 1_200, 9_000_000)
        .expect("inside the window with the interval satisfied");
    assert_eq!(out.executed.fees_processed, 1_000_000);
    assert_eq!(out.executed.buyback_amount, 500_000);
    assert_eq!(out.executed.burn_amount, 300_000);
    assert_eq!(out.executed.lp_add_amount, 200_000);
    assert_eq!(out.executed.timestamp, 1_200);

    let burn = out.burn_notice.expect("800000 to burn out of 1000000");
    assert_eq!(burn.amount, 800_000);
    assert_eq!(burn.total_supply, 8_200_000);

    assert_eq!(cfg.last_execution, 1_200);
    assert_eq!(cfg.total_fees_collected, 1_000_000);
    assert_eq!(cfg.total_bought_back, 500_000);
    assert_eq!(cfg.total_burned, 800_000);
    assert_eq!(cfg.total_lp_added, 200_000);
    assert_eq!(vault, 200_000);
}

#[test]
fn scenario_non_admin_outside_epoch_is_denied() {
    let mut cfg = fresh_config(5_000, 3_000);
    let before = cfg;
    let mut vault: u64 = 500_000;

    let res = execute_flywheel(&mut cfg, &mut vault, &IdentitySwap, STRANGER, 2_001, 9_000_000);
    assert_eq!(res, Err(FlywheelError::OutsideEpoch));
    assert_eq!(cfg, before);
    assert_eq!(vault, 500_000);
}

#[test]
fn scenario_admin_outside_epoch_still_waits_out_interval() {
    let mut cfg = fresh_config(5_000, 3_000);
    let mut vault: u64 = 1_000_000;

    execute_flywheel(&mut cfg, &mut vault, &IdentitySwap, ADMIN, 1_990, 9_000_000)
        .expect("first run inside the window");
    assert_eq!(cfg.last_execution, 1_990);

    // Past the window's end the admin passes the epoch step, but only
    // 30 of the required 60 seconds have elapsed.
    let before = cfg;
    let res = execute_flywheel(&mut cfg, &mut vault, &IdentitySwap, ADMIN, 2_020, 9_000_000);
    assert_eq!(res, Err(FlywheelError::InsufficientInterval));
    assert_eq!(cfg, before);
}

#[test]
fn scenario_update_to_invalid_weights_changes_nothing() {
    let mut cfg = fresh_config(5_000, 2_000);
    let before = cfg;

    let res = update_config(&mut cfg, ADMIN, Some(9_000), None, None, None, 1_500);
    assert_eq!(res, Err(FlywheelError::InvalidBpsSum));
    assert_eq!(cfg, before);
}

#[test]
fn scenario_zero_deposit_is_refused() {
    let mut vault: u64 = 123;
    let res = deposit_fees(&mut vault, STRANGER, 0, 1_100);
    assert_eq!(res, Err(DepositError::InvalidAmount));
    assert_eq!(vault, 123);
}

#[test]
fn second_execution_within_interval_is_denied_for_anyone() {
    for executor in [ADMIN, STRANGER] {
        let mut cfg = fresh_config(5_000, 3_000);
        let mut vault: u64 = 1_000_000;
        execute_flywheel(&mut cfg, &mut vault, &IdentitySwap, executor, 1_200, 9_000_000)
            .expect("first run permitted");
        let res: Result<ExecutionResult, FlywheelError> =
            execute_flywheel(&mut cfg, &mut vault, &IdentitySwap, executor, 1_259, 9_000_000);
        assert_eq!(res, Err(FlywheelError::InsufficientInterval));
    }
}

#[test]
fn epoch_window_is_inclusive_at_both_ends() {
    for now in [1_000u64, 2_000] {
        let mut cfg = fresh_config(1_000, 1_000);
        let mut vault: u64 = 10_000;
        let res = execute_flywheel(&mut cfg, &mut vault, &IdentitySwap, STRANGER, now, 9_000_000);
        assert!(res.is_ok(), "endpoint {now} lies inside the window");
    }
    for now in [999u64, 2_001] {
        let mut cfg = fresh_config(1_000, 1_000);
        let mut vault: u64 = 10_000;
        let res = execute_flywheel(&mut cfg, &mut vault, &IdentitySwap, STRANGER, now, 9_000_000);
        assert_eq!(res, Err(FlywheelError::OutsideEpoch), "one step past {now} lies outside");
    }
}

#[test]
fn empty_vault_aborts_execution_untouched() {
    let mut cfg = fresh_config(5_000, 3_000);
    let before = cfg;
    let mut vault: u64 = 0;
    let res = execute_flywheel(&mut cfg, &mut vault, &IdentitySwap, STRANGER, 1_200, 9_000_000);
    assert_eq!(res, Err(FlywheelError::EmptyVault));
    assert_eq!(cfg, before);
}

#[test]
fn all_zero_weights_skip_the_burn_silently() {
    let mut cfg = fresh_config(0, 0);
    assert_eq!(cfg.lp_add_bps, 10_000);
    let mut vault: u64 = 77_777;

    let out = execute_flywheel(&mut cfg, &mut vault, &IdentitySwap, STRANGER, 1_200, 9_000_000)
        .expect("nothing to burn is not an error");
    assert_eq!(out.executed.buyback_amount, 0);
    assert_eq!(out.executed.burn_amount, 0);
    assert_eq!(out.executed.lp_add_amount, 77_777);
    assert!(out.burn_notice.is_none());
    assert_eq!(cfg.total_burned, 0);
    assert_eq!(cfg.total_lp_added, 77_777);
    assert_eq!(vault, 77_777, "a skipped burn leaves the vault alone");
}

#[test]
fn supply_estimate_saturates_at_zero() {
    let mut cfg = fresh_config(5_000, 5_000);
    let mut vault: u64 = 1_000_000;
    let out = execute_flywheel(&mut cfg, &mut vault, &IdentitySwap, STRANGER, 1_200, 300_000)
        .expect("permitted run");
    let burn = out.burn_notice.expect("the whole vault burns");
    assert_eq!(burn.amount, 1_000_000);
    assert_eq!(burn.total_supply, 0);
}

#[test]
fn oversized_balance_overflows_the_split() {
    let mut cfg = fresh_config(5_000, 3_000);
    let before = cfg;
    let mut vault: u64 = u64::MAX;
    let res = execute_flywheel(&mut cfg, &mut vault, &IdentitySwap, STRANGER, 1_200, 9_000_000);
    assert_eq!(res, Err(FlywheelError::MathOverflow));
    assert_eq!(cfg, before);
    assert_eq!(vault, u64::MAX);
}

#[test]
fn clock_before_last_execution_is_an_overflow() {
    let mut cfg = fresh_config(5_000, 3_000);
    let mut vault: u64 = 1_000_000;
    execute_flywheel(&mut cfg, &mut vault, &IdentitySwap, STRANGER, 1_500, 9_000_000)
        .expect("first run permitted");
    let res = execute_flywheel(&mut cfg, &mut vault, &IdentitySwap, STRANGER, 1_400, 9_000_000);
    assert_eq!(res, Err(FlywheelError::MathOverflow));
}

#[test]
fn deposit_overflowing_the_vault_is_refused() {
    let mut vault: u64 = u64::MAX - 5;
    let res = deposit_fees(&mut vault, STRANGER, 6, 1_100);
    assert_eq!(res, Err(DepositError::MathOverflow));
    assert_eq!(vault, u64::MAX - 5);
}

#[test]
fn emergency_withdraw_drains_everything_without_gating() {
    let cfg = fresh_config(5_000, 3_000);
    let mut vault: u64 = 42_000;
    // Far outside the epoch window: the escape hatch does not care.
    let ev = emergency_withdraw(&cfg, &mut vault, ADMIN, STRANGER, 9_999)
        .expect("admin may always drain");
    assert_eq!(ev.amount, 42_000);
    assert_eq!(ev.recipient, STRANGER);
    assert_eq!(vault, 0);
}

#[test]
fn emergency_withdraw_refuses_non_admin_and_empty_vault() {
    let cfg = fresh_config(5_000, 3_000);
    let mut vault: u64 = 42_000;
    assert_eq!(
        emergency_withdraw(&cfg, &mut vault, STRANGER, STRANGER, 9_999),
        Err(FlywheelError::Unauthorized)
    );
    assert_eq!(vault, 42_000);

    let mut empty: u64 = 0;
    assert_eq!(
        emergency_withdraw(&cfg, &mut empty, ADMIN, STRANGER, 9_999),
        Err(FlywheelError::EmptyVault)
    );
}

//! Share ledger and orchestrator behaviour: deposits, withdrawals, harvest.

use vault::errors::VaultError;
use vault::orchestrator::{
    deposit, harvest, initialize_vault, register_strategy, register_token, update_vault_params,
    withdraw,
};
use vault::share_ledger::{calculate_shares, calculate_shares_for_withdraw};
use vault::state::{ReferralRecord, Strategy, UserPosition, Vault, VaultToken};

fn test_vault(authority: u64, rate: u64) -> Vault {
    initialize_vault(authority, 0, 0, rate)
}

fn test_pool(total_underlying: u64, total_shares: u64) -> VaultToken {
    VaultToken {
        vault: 10,
        mint: 11,
        vault_token_account: 12,
        total_underlying,
        total_shares,
        points_multiplier_bps: 10_000,
        bump: 0,
    }
}

fn fresh_position() -> UserPosition {
    UserPosition {
        vault_token: 0,
        user: 0,
        shares: 0,
        cumulative_points: 0,
        last_points_ts: 0,
        bump: 0,
    }
}

fn fresh_record() -> ReferralRecord {
    ReferralRecord::default()
}

#[test]
fn initialize_vault_sets_fields() {
    let v = initialize_vault(1, 3, 4, 250);
    assert_eq!(v.authority, 1);
    assert_eq!(v.bump, 3);
    assert_eq!(v.signer_bump, 4);
    assert_eq!(v.base_points_rate, 250);
    assert!(!v.paused);
}

#[test]
fn update_vault_params_requires_authority() {
    let mut v = test_vault(1, 100);
    assert_eq!(update_vault_params(&mut v, 2, 7, true), Err(VaultError::Unauthorized));
    assert_eq!(v.base_points_rate, 100);
    assert!(!v.paused);
    assert_eq!(update_vault_params(&mut v, 1, 7, true), Ok(()));
    assert_eq!(v.base_points_rate, 7);
    assert!(v.paused);
}

#[test]
fn register_token_validates_multiplier() {
    let v = test_vault(1, 100);
    assert_eq!(
        register_token(&v, 10, 1, 11, 12, 0, 0).unwrap_err(),
        VaultError::InvalidMultiplier
    );
    assert_eq!(
        register_token(&v, 10, 1, 11, 12, 0, 10_001).unwrap_err(),
        VaultError::InvalidMultiplier
    );
    assert_eq!(
        register_token(&v, 10, 2, 11, 12, 0, 5000).unwrap_err(),
        VaultError::Unauthorized
    );
    let (pool, event) = register_token(&v, 10, 1, 11, 12, 9, 5000).unwrap();
    assert_eq!(pool.vault, 10);
    assert_eq!(pool.mint, 11);
    assert_eq!(pool.vault_token_account, 12);
    assert_eq!(pool.total_underlying, 0);
    assert_eq!(pool.total_shares, 0);
    assert_eq!(pool.points_multiplier_bps, 5000);
    assert_eq!(pool.bump, 9);
    assert_eq!(event.mint, 11);
    assert_eq!(event.multiplier_bps, 5000);
}

#[test]
fn register_strategy_caps_weight() {
    let v = test_vault(1, 100);
    assert_eq!(
        register_strategy(&v, 1, 20, 21, 0, 10_001).unwrap_err(),
        VaultError::InvalidMultiplier
    );
    assert_eq!(
        register_strategy(&v, 3, 20, 21, 0, 100).unwrap_err(),
        VaultError::Unauthorized
    );
    let (strategy, event) = register_strategy(&v, 1, 20, 21, 2, 10_000).unwrap();
    assert_eq!(strategy.vault_token, 20);
    assert_eq!(strategy.authority, 1);
    assert_eq!(strategy.strategy_id, 2);
    assert_eq!(strategy.weight_bps, 10_000);
    assert_eq!(strategy.last_harvest_ts, 0);
    assert_eq!(event.vault_token, 20);
    assert_eq!(event.strategy, 21);
    assert_eq!(event.weight_bps, 10_000);
}

#[test]
fn calculate_shares_bootstraps_one_to_one() {
    assert_eq!(calculate_shares(1_000_000, &test_pool(0, 0)), Ok(1_000_000));
    // a pool drained of value but not of shares also bootstraps
    assert_eq!(calculate_shares(42, &test_pool(0, 7)), Ok(42));
    assert_eq!(calculate_shares(42, &test_pool(7, 0)), Ok(42));
}

#[test]
fn calculate_shares_floors_at_current_price() {
    // price 2: 1000 underlying buys 500 shares
    assert_eq!(calculate_shares(1000, &test_pool(2_000_000, 1_000_000)), Ok(500));
    // 3 * 1 / 2 floors to 1
    assert_eq!(calculate_shares(3, &test_pool(2, 1)), Ok(1));
    // quotient beyond u64 is a fatal overflow, never truncated
    assert_eq!(
        calculate_shares(u64::MAX, &test_pool(1, u64::MAX)),
        Err(VaultError::MathOverflow)
    );
}

#[test]
fn calculate_shares_for_withdraw_needs_value() {
    assert_eq!(
        calculate_shares_for_withdraw(5, &test_pool(0, 100)),
        Err(VaultError::InvalidAmount)
    );
    assert_eq!(calculate_shares_for_withdraw(500, &test_pool(2000, 1000)), Ok(250));
}

#[test]
fn bootstrap_deposit_mints_amount() {
    let v = test_vault(1, 100);
    let mut pool = test_pool(0, 0);
    let mut pos = fresh_position();
    let mut rec = fresh_record();
    let out = deposit(&v, 10, &mut pool, 20, &mut pos, 5, &mut rec, None, 7, 1_000_000, 0, 50)
        .unwrap();
    assert_eq!(out.event.user, 7);
    assert_eq!(out.event.mint, 11);
    assert_eq!(out.event.amount, 1_000_000);
    assert_eq!(out.event.shares, 1_000_000);
    assert!(out.inviter_record.is_none());
    assert_eq!(pool.total_shares, 1_000_000);
    assert_eq!(pool.total_underlying, 1_000_000);
    assert_eq!(pos.shares, 1_000_000);
    assert_eq!(pos.user, 7);
    assert_eq!(pos.vault_token, 20);
    assert_eq!(pos.bump, 5);
    assert_eq!(pos.last_points_ts, 50);
    assert_eq!(rec.user, 7);
    assert_eq!(rec.vault, 10);
    assert_eq!(rec.inviter, 0);
}

#[test]
fn deposit_increments_totals_exactly() {
    let v = test_vault(1, 100);
    // price 2
    let mut pool = test_pool(2_000_000, 1_000_000);
    let mut pos = UserPosition { shares: 300, user: 7, last_points_ts: 50, ..fresh_position() };
    let mut rec = fresh_record();
    let out = deposit(&v, 10, &mut pool, 20, &mut pos, 0, &mut rec, None, 7, 1000, 0, 50).unwrap();
    assert_eq!(out.event.shares, 500);
    assert_eq!(pool.total_shares, 1_000_500);
    assert_eq!(pool.total_underlying, 2_001_000);
    assert_eq!(pos.shares, 800);
}

#[test]
fn deposit_rejects_zero_amount_and_paused_vault() {
    let v = test_vault(1, 100);
    let mut pool = test_pool(0, 0);
    let mut pos = fresh_position();
    let mut rec = fresh_record();
    assert_eq!(
        deposit(&v, 10, &mut pool, 20, &mut pos, 0, &mut rec, None, 7, 0, 0, 50).unwrap_err(),
        VaultError::InvalidAmount
    );
    let mut paused = test_vault(1, 100);
    update_vault_params(&mut paused, 1, 100, true).unwrap();
    assert_eq!(
        deposit(&paused, 10, &mut pool, 20, &mut pos, 0, &mut rec, None, 7, 5, 0, 50).unwrap_err(),
        VaultError::VaultPaused
    );
    assert_eq!(pool, test_pool(0, 0));
    assert_eq!(pos, fresh_position());
}

#[test]
fn deposit_rejects_zero_shares() {
    let v = test_vault(1, 100);
    // price 1000: a deposit of 500 floors to zero shares
    let mut pool = test_pool(1000, 1);
    let mut pos = fresh_position();
    let mut rec = fresh_record();
    assert_eq!(
        deposit(&v, 10, &mut pool, 20, &mut pos, 0, &mut rec, None, 7, 500, 0, 50).unwrap_err(),
        VaultError::ZeroShares
    );
    assert_eq!(pool.total_underlying, 1000);
    assert_eq!(pool.total_shares, 1);
}

#[test]
fn deposit_overflowing_pool_totals_is_fatal() {
    let v = test_vault(1, 100);
    let mut pool = test_pool(1, 1);
    let mut pos = fresh_position();
    let mut rec = fresh_record();
    // mints u64::MAX shares, which no longer fit in the pool's total
    assert_eq!(
        deposit(&v, 10, &mut pool, 20, &mut pos, 0, &mut rec, None, 7, u64::MAX, 0, 50)
            .unwrap_err(),
        VaultError::MathOverflow
    );
    assert_eq!(pool, test_pool(1, 1));
    assert_eq!(pos, fresh_position());
}

#[test]
fn deposit_dust_raises_share_price() {
    let v = test_vault(1, 100);
    // price 1.5: depositing 2 floors 4/3 to 1 share, leaving dust behind
    let mut pool = test_pool(3, 2);
    let mut pos = UserPosition { shares: 2, user: 7, last_points_ts: 50, ..fresh_position() };
    let mut rec = fresh_record();
    let out = deposit(&v, 10, &mut pool, 20, &mut pos, 0, &mut rec, None, 7, 2, 0, 50).unwrap();
    assert_eq!(out.event.shares, 1);
    assert_eq!(pool.total_underlying, 5);
    assert_eq!(pool.total_shares, 3);
    // cross-multiplied: 5/3 >= 3/2
    assert!(pool.total_underlying as u128 * 2 >= 3u128 * pool.total_shares as u128);
}

#[test]
fn withdraw_price_within_flooring_tolerance() {
    let v = test_vault(1, 100);
    // price 10/3: withdrawing 4 burns floor(4*3/10) = 1 share
    let mut pool = test_pool(10, 3);
    let mut pos = UserPosition { shares: 3, user: 7, last_points_ts: 50, ..fresh_position() };
    let event = withdraw(&v, &mut pool, &mut pos, 7, 4, 50).unwrap();
    assert_eq!(event.shares, 1);
    assert_eq!(pool.total_underlying, 6);
    assert_eq!(pool.total_shares, 2);
    // (U - a)*S <= U*(S - s) < (U - a)*S + U with U = 10, S = 3, a = 4, s = 1
    assert!(6 * 3 <= 10 * 2);
    assert!(10 * 2 < 6 * 3 + 10);
}

#[test]
fn withdraw_preserves_share_price() {
    let v = test_vault(1, 100);
    // price 2 before: 2000 underlying, 1000 shares
    let mut pool = test_pool(2000, 1000);
    let mut pos = UserPosition { shares: 1000, user: 7, last_points_ts: 50, ..fresh_position() };
    let event = withdraw(&v, &mut pool, &mut pos, 7, 500, 50).unwrap();
    assert_eq!(event.shares, 250);
    assert_eq!(pool.total_underlying, 1500);
    assert_eq!(pool.total_shares, 750);
    // price 2 after
    assert_eq!(pool.total_underlying / pool.total_shares, 2);
    assert_eq!(pos.shares, 750);
}

#[test]
fn withdraw_exceeding_position_fails_untouched() {
    let v = test_vault(1, 100);
    let mut pool = test_pool(2000, 1000);
    let pos_before = UserPosition { shares: 10, user: 7, last_points_ts: 50, ..fresh_position() };
    let mut pos = pos_before;
    assert_eq!(
        withdraw(&v, &mut pool, &mut pos, 7, 500, 60).unwrap_err(),
        VaultError::InsufficientShares
    );
    assert_eq!(pool, test_pool(2000, 1000));
    assert_eq!(pos, pos_before);
}

#[test]
fn withdraw_validates_amount_and_balance() {
    let v = test_vault(1, 100);
    let mut pool = test_pool(2000, 1000);
    let mut pos = UserPosition { shares: 100, user: 7, last_points_ts: 50, ..fresh_position() };
    assert_eq!(
        withdraw(&v, &mut pool, &mut pos, 7, 0, 60).unwrap_err(),
        VaultError::InvalidAmount
    );
    // an empty position fails before anything else
    let mut empty = fresh_position();
    assert_eq!(
        withdraw(&v, &mut pool, &mut empty, 7, 5, 60).unwrap_err(),
        VaultError::InsufficientShares
    );
    // an amount that floors to zero shares burns nothing
    assert_eq!(
        withdraw(&v, &mut pool, &mut pos, 7, 1, 60).unwrap_err(),
        VaultError::ZeroShares
    );
    // a drained pool rejects every withdrawal
    let mut drained = test_pool(0, 0);
    let mut holder = UserPosition { shares: 5, user: 7, last_points_ts: 50, ..fresh_position() };
    assert_eq!(
        withdraw(&v, &mut drained, &mut holder, 7, 5, 60).unwrap_err(),
        VaultError::InvalidAmount
    );
}

#[test]
fn withdraw_full_drain_burns_all_shares() {
    let v = test_vault(1, 100);
    let mut pool = test_pool(2000, 1000);
    let mut pos = UserPosition { shares: 1000, user: 7, last_points_ts: 50, ..fresh_position() };
    let event = withdraw(&v, &mut pool, &mut pos, 7, 2000, 50).unwrap();
    assert_eq!(event.shares, 1000);
    assert_eq!(pool.total_underlying, 0);
    assert_eq!(pool.total_shares, 0);
    assert_eq!(pos.shares, 0);
}

#[test]
fn harvest_raises_price_without_minting() {
    let v = test_vault(1, 100);
    let mut pool = test_pool(1000, 500);
    let mut strategy = Strategy {
        vault_token: 20,
        authority: 1,
        strategy_id: 0,
        weight_bps: 10_000,
        last_harvest_ts: 0,
    };
    let event = harvest(&v, &mut pool, &mut strategy, 21, 1, 250, 99).unwrap();
    assert_eq!(event.strategy, 21);
    assert_eq!(event.mint, 11);
    assert_eq!(event.yield_amount, 250);
    assert_eq!(pool.total_underlying, 1250);
    assert_eq!(pool.total_shares, 500);
    assert_eq!(strategy.last_harvest_ts, 99);
}

#[test]
fn harvest_validates_keeper_amount_and_overflow() {
    let v = test_vault(1, 100);
    let mut pool = test_pool(1000, 500);
    let mut strategy = Strategy {
        vault_token: 20,
        authority: 1,
        strategy_id: 0,
        weight_bps: 10_000,
        last_harvest_ts: 0,
    };
    assert_eq!(
        harvest(&v, &mut pool, &mut strategy, 21, 1, 0, 99).unwrap_err(),
        VaultError::InvalidAmount
    );
    assert_eq!(
        harvest(&v, &mut pool, &mut strategy, 21, 2, 10, 99).unwrap_err(),
        VaultError::Unauthorized
    );
    let mut brimming = test_pool(u64::MAX, 500);
    assert_eq!(
        harvest(&v, &mut brimming, &mut strategy, 21, 1, 1, 99).unwrap_err(),
        VaultError::MathOverflow
    );
    assert_eq!(brimming.total_underlying, u64::MAX);
    assert_eq!(strategy.last_harvest_ts, 0);
}

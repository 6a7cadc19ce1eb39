//! The durable records of the vault and the events its operations report.
//!
//! Identifiers (authorities, participants, mints, record addresses) are plain
//! `u64` keys supplied by the hosting environment; the key `0` is reserved to
//! mean "unset / absent".  All monetary and share quantities are `u64`;
//! cumulative points are `u128`; timestamps are `i64` seconds.

use vstd::prelude::*;

verus! {

/// Seconds per day; the points formula normalises elapsed time by this.
pub const DAY_IN_SECONDS: u64 = 86_400;

/// Basis-point denominator: 10_000 bps is 100%.
pub const MAX_BPS: u16 = 10_000;

/// Flat referral bonus granted to an inviter, in basis points of the
/// deposited amount.
pub const REFERRAL_BONUS_BPS: u16 = 500;

/// One vault per deployment scope: its authority, the global points rate and
/// the pause flag.
#[derive(Clone, Copy, Debug, PartialEq, Eq, Structural)]
pub struct Vault {
    pub authority: u64,
    pub bump: u8,
    pub signer_bump: u8,
    pub base_points_rate: u64,
    pub paused: bool,
}

/// Per-asset sub-ledger of a vault: the pool totals and the points
/// multiplier for that asset.
#[derive(Clone, Copy, Debug, PartialEq, Eq, Structural)]
pub struct VaultToken {
    pub vault: u64,
    pub mint: u64,
    pub vault_token_account: u64,
    pub total_underlying: u64,
    pub total_shares: u64,
    pub points_multiplier_bps: u16,
    pub bump: u8,
}

/// Yield-source bookkeeping for a pool: a weight and the last harvest time.
#[derive(Clone, Copy, Debug, PartialEq, Eq, Structural)]
pub struct Strategy {
    pub vault_token: u64,
    pub authority: u64,
    pub strategy_id: u8,
    pub weight_bps: u16,
    pub last_harvest_ts: i64,
}

/// A participant's share balance and points state within one pool.
/// `user == 0` marks a record that has never been touched.
#[derive(Clone, Copy, Debug, PartialEq, Eq, Structural)]
pub struct UserPosition {
    pub vault_token: u64,
    pub user: u64,
    pub shares: u64,
    pub cumulative_points: u128,
    pub last_points_ts: i64,
    pub bump: u8,
}

/// Vault-scoped referral identity of one participant: the inviter bound to
/// them (0 = unset, immutable once set) and the bonus points they have
/// earned as an inviter themselves.
#[derive(Clone, Copy, Debug, PartialEq, Eq, Structural)]
pub struct ReferralRecord {
    pub vault: u64,
    pub user: u64,
    pub inviter: u64,
    pub points_from_invites: u128,
    pub bump: u8,
}

impl Default for ReferralRecord {
    /// A freshly created referral record: every key unset, no points.
    fn default() -> (r: ReferralRecord)
        ensures
            r == (ReferralRecord {
                vault: 0,
                user: 0,
                inviter: 0,
                points_from_invites: 0,
                bump: 0,
            }),
    {
        ReferralRecord { vault: 0, user: 0, inviter: 0, points_from_invites: 0, bump: 0 }
    }
}

/// A pool never reports outstanding shares against an empty balance; this is
/// the division-by-zero guard every operation preserves.
pub open spec fn pool_solvent(vault_token: VaultToken) -> bool {
    vault_token.total_shares > 0 ==> vault_token.total_underlying > 0
}

/// Reported after a successful deposit.
#[derive(Clone, Copy, Debug, PartialEq, Eq, Structural)]
pub struct DepositEvent {
    pub user: u64,
    pub mint: u64,
    pub amount: u64,
    pub shares: u64,
}

/// Reported after a successful withdrawal.
#[derive(Clone, Copy, Debug, PartialEq, Eq, Structural)]
pub struct WithdrawEvent {
    pub user: u64,
    pub mint: u64,
    pub amount: u64,
    pub shares: u64,
}

/// Reported after a successful harvest.
#[derive(Clone, Copy, Debug, PartialEq, Eq, Structural)]
pub struct HarvestEvent {
    pub strategy: u64,
    pub mint: u64,
    pub yield_amount: u64,
}

/// Reported when a pool is registered for an asset.
#[derive(Clone, Copy, Debug, PartialEq, Eq, Structural)]
pub struct TokenRegistered {
    pub mint: u64,
    pub multiplier_bps: u16,
}

/// Reported when a strategy is registered for a pool.
#[derive(Clone, Copy, Debug, PartialEq, Eq, Structural)]
pub struct StrategyRegistered {
    pub vault_token: u64,
    pub strategy: u64,
    pub weight_bps: u16,
}

} // verus!

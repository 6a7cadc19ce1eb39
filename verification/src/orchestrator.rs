//! Vault orchestrator: the entry points that sequence validation, share
//! math, points accrual and referral booking for each operation.
//!
//! Every operation is all-or-nothing: on any error the records handed in
//! through `&mut` are left exactly as they were, and the caller persists
//! the mutated records — and performs the accompanying value transfer —
//! only on success.

use vstd::prelude::*;

use crate::errors::VaultError;
use crate::points::{accrue_points, accrual_fails, accrued_position};
use crate::referral::{binding_error, bound_inviter, credited_inviter_record, referral_bonus, InviterAccount};
use crate::share_ledger::{
    calculate_shares, calculate_shares_for_withdraw, lemma_deposit_price_never_decreases,
    lemma_full_withdraw_burns_all_shares, lemma_withdraw_price_within_tolerance,
    shares_for_deposit, shares_for_withdraw,
};
use crate::state::{
    Vault, VaultToken, Strategy, UserPosition, ReferralRecord, DepositEvent, WithdrawEvent,
    HarvestEvent, TokenRegistered, StrategyRegistered, pool_solvent, MAX_BPS, REFERRAL_BONUS_BPS,
};

verus! {

/// What a successful deposit hands back to the caller for persisting and
/// reporting: the event, and the credited inviter record where an inviter
/// was involved.
#[derive(Clone, Copy, Debug, PartialEq, Eq, Structural)]
pub struct DepositOutcome {
    pub event: DepositEvent,
    pub inviter_record: Option<ReferralRecord>,
}

/// Why a deposit is rejected, if it is; the gates fire in the order the
/// operation checks them, and any error leaves every record untouched.
/// After a successful binding the record's inviter equals the supplied
/// `inviter` (also when it was already bound), so the booking gates compare
/// the auxiliary account against `inviter` directly.
pub open spec fn deposit_error(
    vault: Vault,
    vault_token: VaultToken,
    pos: UserPosition,
    rec: ReferralRecord,
    inviter_account: Option<InviterAccount>,
    user: u64,
    amount: u64,
    inviter: u64,
    now: i64,
) -> Option<VaultError> {
    if amount == 0 {
        Some(VaultError::InvalidAmount)
    } else if vault.paused {
        Some(VaultError::VaultPaused)
    } else if binding_error(rec.inviter, user, inviter) is Some {
        binding_error(rec.inviter, user, inviter)
    } else {
        let s = shares_for_deposit(amount, vault_token.total_shares, vault_token.total_underlying);
        if s > u64::MAX {
            Some(VaultError::MathOverflow)
        } else if s == 0 {
            Some(VaultError::ZeroShares)
        } else if accrual_fails(vault, vault_token, pos, now) {
            Some(VaultError::MathOverflow)
        } else if pos.shares + s > u64::MAX {
            Some(VaultError::MathOverflow)
        } else if vault_token.total_shares + s > u64::MAX {
            Some(VaultError::MathOverflow)
        } else if vault_token.total_underlying + amount > u64::MAX {
            Some(VaultError::MathOverflow)
        } else if inviter != 0 {
            if inviter_account is None {
                Some(VaultError::InviterAccountMissing)
            } else if inviter_account->0.key != inviter {
                Some(VaultError::InvalidInviter)
            } else if inviter_account->0.record.points_from_invites + referral_bonus(amount) > u128::MAX {
                Some(VaultError::MathOverflow)
            } else {
                None
            }
        } else {
            if inviter_account is Some {
                Some(VaultError::UnexpectedInviterAccount)
            } else {
                None
            }
        }
    }
}

/// Deposit `amount` of underlying into the pool for `user`.
///
/// The sequence is fixed: validation and inviter binding, share conversion
/// at the pre-deposit price, points accrual over the pre-mutation state,
/// lazy initialisation of the position and referral records, balance
/// updates, and finally the inviter's flat bonus.  The caller resolves the
/// depositor's referral record (a fresh one is all zeroes), supplies the
/// auxiliary inviter account exactly when the depositor names or has bound
/// an inviter, transfers `amount` into pool custody, and persists the
/// mutated records only on success.
///
/// `vault_key` and `vault_token_key` are the records' own store keys, used
/// to stamp lazily initialised records; `user` is the depositor's key and
/// never 0, which is reserved for "absent".
pub fn deposit(
    vault: &Vault,
    vault_key: u64,
    vault_token: &mut VaultToken,
    vault_token_key: u64,
    user_position: &mut UserPosition,
    position_bump: u8,
    referral_record: &mut ReferralRecord,
    inviter_account: Option<InviterAccount>,
    user: u64,
    amount: u64,
    inviter: u64,
    now: i64,
) -> (r: Result<DepositOutcome, VaultError>)
    requires
        user != 0,
    ensures
        r is Err <==> deposit_error(
            *vault,
            *old(vault_token),
            *old(user_position),
            *old(referral_record),
            inviter_account,
            user,
            amount,
            inviter,
            now,
        ) is Some,
        r is Err ==> Some(r->Err_0) == deposit_error(
            *vault,
            *old(vault_token),
            *old(user_position),
            *old(referral_record),
            inviter_account,
            user,
            amount,
            inviter,
            now,
        ) && *final(vault_token) == *old(vault_token)
            && *final(user_position) == *old(user_position)
            && *final(referral_record) == *old(referral_record),
        r is Ok ==> ({
            let s = shares_for_deposit(amount, old(vault_token).total_shares, old(vault_token).total_underlying);
            let accrued = accrued_position(*vault, *old(vault_token), *old(user_position), now);
            let touched = if old(user_position).user == 0 {
                UserPosition {
                    user,
                    vault_token: vault_token_key,
                    bump: position_bump,
                    last_points_ts: now,
                    ..accrued
                }
            } else {
                accrued
            };
            &&& *final(user_position) == (UserPosition { shares: (touched.shares + s) as u64, ..touched })
            &&& *final(vault_token) == (VaultToken {
                total_shares: (old(vault_token).total_shares + s) as u64,
                total_underlying: (old(vault_token).total_underlying + amount) as u64,
                ..*old(vault_token)
            })
            &&& *final(referral_record) == (ReferralRecord {
                inviter: bound_inviter(old(referral_record).inviter, inviter),
                user: if old(referral_record).user == 0 { user } else { old(referral_record).user },
                vault: if old(referral_record).user == 0 { vault_key } else { old(referral_record).vault },
                ..*old(referral_record)
            })
            &&& r->Ok_0.event == (DepositEvent { user, mint: old(vault_token).mint, amount, shares: s as u64 })
            &&& r->Ok_0.inviter_record == (if inviter != 0 {
                Some(credited_inviter_record(inviter_account->0, vault_key, amount))
            } else {
                None::<ReferralRecord>
            })
        }),
        // a deposit names an inviter other than the depositor or fails:
        inviter != 0 && inviter == user ==> r is Err,
        // flooring the minted shares never lowers the share price of an
        // already-funded pool, compared in rational arithmetic:
        (r is Ok && old(vault_token).total_shares > 0 && old(vault_token).total_underlying > 0)
            ==> final(vault_token).total_underlying * old(vault_token).total_shares
                >= old(vault_token).total_underlying * final(vault_token).total_shares,
        // a pool that was solvent stays solvent, and a successful deposit
        // always leaves the pool holding value:
        r is Ok ==> pool_solvent(*final(vault_token)),
        pool_solvent(*old(vault_token)) ==> pool_solvent(*final(vault_token)),
{
    if amount == 0 {
        return Err(VaultError::InvalidAmount);
    }
    if vault.paused {
        return Err(VaultError::VaultPaused);
    }
    if inviter != 0 {
        if inviter == user {
            return Err(VaultError::InvalidInviter);
        }
        if referral_record.inviter != 0 && referral_record.inviter != inviter {
            return Err(VaultError::InviterLocked);
        }
    } else {
        if referral_record.inviter != 0 {
            return Err(VaultError::InviterLocked);
        }
    }
    let shares: u64 = match calculate_shares(amount, vault_token) {
        Ok(s) => s,
        Err(e) => {
            return Err(e);
        },
    };
    if shares == 0 {
        return Err(VaultError::ZeroShares);
    }
    let mut pos = *user_position;
    match accrue_points(vault, vault_token, &mut pos, now) {
        Ok(()) => (),
        Err(e) => {
            return Err(e);
        },
    };
    if pos.user == 0 {
        pos.user = user;
        pos.vault_token = vault_token_key;
        pos.bump = position_bump;
        pos.last_points_ts = now;
    }
    let new_pos_shares: u64 = match pos.shares.checked_add(shares) {
        Some(v) => v,
        None => {
            return Err(VaultError::MathOverflow);
        },
    };
    let new_total_shares: u64 = match vault_token.total_shares.checked_add(shares) {
        Some(v) => v,
        None => {
            return Err(VaultError::MathOverflow);
        },
    };
    let new_total_underlying: u64 = match vault_token.total_underlying.checked_add(amount) {
        Some(v) => v,
        None => {
            return Err(VaultError::MathOverflow);
        },
    };
    let mut rec = *referral_record;
    if rec.inviter == 0 && inviter != 0 {
        rec.inviter = inviter;
    }
    if rec.user == 0 {
        rec.user = user;
        rec.vault = vault_key;
    }
    let mut updated_inviter: Option<ReferralRecord> = None;
    if rec.inviter != 0 {
        match inviter_account {
            None => {
                return Err(VaultError::InviterAccountMissing);
            },
            Some(account) => {
                if account.key != rec.inviter {
                    return Err(VaultError::InvalidInviter);
                }
                let mut inviter_rec = account.record;
                if inviter_rec.user == 0 {
                    inviter_rec.user = account.key;
                    inviter_rec.vault = vault_key;
                }
                assert((amount as int) * (REFERRAL_BONUS_BPS as int) <= u128::MAX) by (nonlinear_arith)
                    requires
                        amount <= u64::MAX,
                        REFERRAL_BONUS_BPS == 500,
                ;
                let bonus: u128 = (amount as u128) * (REFERRAL_BONUS_BPS as u128) / (MAX_BPS as u128);
                let new_invite_points: u128 = match inviter_rec.points_from_invites.checked_add(bonus) {
                    Some(v) => v,
                    None => {
                        return Err(VaultError::MathOverflow);
                    },
                };
                inviter_rec.points_from_invites = new_invite_points;
                updated_inviter = Some(inviter_rec);
            },
        }
    } else {
        if inviter_account.is_some() {
            return Err(VaultError::UnexpectedInviterAccount);
        }
    }
    pos.shares = new_pos_shares;
    *user_position = pos;
    vault_token.total_shares = new_total_shares;
    vault_token.total_underlying = new_total_underlying;
    *referral_record = rec;
    proof {
        if old(vault_token).total_shares > 0 && old(vault_token).total_underlying > 0 {
            lemma_deposit_price_never_decreases(
                amount,
                old(vault_token).total_shares,
                old(vault_token).total_underlying,
            );
        }
    }
    let event = DepositEvent { user, mint: vault_token.mint, amount, shares };
    Ok(DepositOutcome { event, inviter_record: updated_inviter })
}

/// Why a withdrawal of `amount` from this pool and position at `now` is
/// rejected, if it is; the gates fire in the order the operation checks
/// them, and any error leaves every record untouched.
pub open spec fn withdraw_error(
    vault: Vault,
    vault_token: VaultToken,
    pos: UserPosition,
    amount: u64,
    now: i64,
) -> Option<VaultError> {
    if amount == 0 {
        Some(VaultError::InvalidAmount)
    } else if pos.shares == 0 {
        Some(VaultError::InsufficientShares)
    } else if vault_token.total_underlying == 0 {
        Some(VaultError::InvalidAmount)
    } else {
        let s = shares_for_withdraw(amount, vault_token.total_shares, vault_token.total_underlying);
        if s > u64::MAX {
            Some(VaultError::MathOverflow)
        } else if s == 0 {
            Some(VaultError::ZeroShares)
        } else if s > pos.shares {
            Some(VaultError::InsufficientShares)
        } else if accrual_fails(vault, vault_token, pos, now) {
            Some(VaultError::MathOverflow)
        } else if s > vault_token.total_shares {
            Some(VaultError::MathOverflow)
        } else if amount > vault_token.total_underlying {
            Some(VaultError::InvalidAmount)
        } else {
            None
        }
    }
}

/// Withdraw `amount` of underlying from the pool: the equivalent shares
/// (floored at the current price) are burned from the position and the
/// pool, points are accrued over the pre-mutation state first, and the
/// caller transfers `amount` out of pool custody only on success.
pub fn withdraw(
    vault: &Vault,
    vault_token: &mut VaultToken,
    user_position: &mut UserPosition,
    user: u64,
    amount: u64,
    now: i64,
) -> (r: Result<WithdrawEvent, VaultError>)
    ensures
        r is Err <==> withdraw_error(*vault, *old(vault_token), *old(user_position), amount, now) is Some,
        r is Err ==> Some(r->Err_0) == withdraw_error(*vault, *old(vault_token), *old(user_position), amount, now)
            && *final(vault_token) == *old(vault_token)
            && *final(user_position) == *old(user_position),
        r is Ok ==> ({
            let s = shares_for_withdraw(amount, old(vault_token).total_shares, old(vault_token).total_underlying);
            let accrued = accrued_position(*vault, *old(vault_token), *old(user_position), now);
            &&& *final(user_position) == (UserPosition { shares: (accrued.shares - s) as u64, ..accrued })
            &&& *final(vault_token) == (VaultToken {
                total_shares: (old(vault_token).total_shares - s) as u64,
                total_underlying: (old(vault_token).total_underlying - amount) as u64,
                ..*old(vault_token)
            })
            &&& r->Ok_0 == (WithdrawEvent { user, mint: old(vault_token).mint, amount, shares: s as u64 })
        }),
        // a request for more than the position's balance always fails with
        // InsufficientShares (unless the conversion itself already overflows):
        ({
            let s = shares_for_withdraw(amount, old(vault_token).total_shares, old(vault_token).total_underlying);
            amount != 0 && old(user_position).shares != 0 && old(vault_token).total_underlying > 0
                && s <= u64::MAX && s > old(user_position).shares
        }) ==> r == Err::<WithdrawEvent, VaultError>(VaultError::InsufficientShares),
        // the share price is unchanged within flooring tolerance, compared
        // in rational arithmetic over the pre- and post-operation pool:
        r is Ok ==> ({
            let s = shares_for_withdraw(amount, old(vault_token).total_shares, old(vault_token).total_underlying);
            let u = old(vault_token).total_underlying as int;
            let ts = old(vault_token).total_shares as int;
            let a = amount as int;
            (u - a) * ts <= u * (ts - s) && u * (ts - s) < (u - a) * ts + u
        }),
        r is Ok ==> pool_solvent(*final(vault_token)),
        pool_solvent(*old(vault_token)) ==> pool_solvent(*final(vault_token)),
{
    if amount == 0 {
        return Err(VaultError::InvalidAmount);
    }
    if user_position.shares == 0 {
        return Err(VaultError::InsufficientShares);
    }
    let shares_to_burn: u64 = match calculate_shares_for_withdraw(amount, vault_token) {
        Ok(s) => s,
        Err(e) => {
            return Err(e);
        },
    };
    if shares_to_burn == 0 {
        return Err(VaultError::ZeroShares);
    }
    if shares_to_burn > user_position.shares {
        return Err(VaultError::InsufficientShares);
    }
    let mut pos = *user_position;
    match accrue_points(vault, vault_token, &mut pos, now) {
        Ok(()) => (),
        Err(e) => {
            return Err(e);
        },
    };
    let new_pos_shares: u64 = pos.shares - shares_to_burn;
    let new_total_shares: u64 = match vault_token.total_shares.checked_sub(shares_to_burn) {
        Some(v) => v,
        None => {
            return Err(VaultError::MathOverflow);
        },
    };
    if amount > vault_token.total_underlying {
        return Err(VaultError::InvalidAmount);
    }
    let new_total_underlying: u64 = vault_token.total_underlying - amount;
    pos.shares = new_pos_shares;
    *user_position = pos;
    vault_token.total_shares = new_total_shares;
    vault_token.total_underlying = new_total_underlying;
    proof {
        lemma_withdraw_price_within_tolerance(
            amount,
            old(vault_token).total_shares,
            old(vault_token).total_underlying,
        );
        if amount == old(vault_token).total_underlying {
            lemma_full_withdraw_burns_all_shares(
                old(vault_token).total_shares,
                old(vault_token).total_underlying,
            );
        }
    }
    Ok(WithdrawEvent { user, mint: vault_token.mint, amount, shares: shares_to_burn })
}

/// Create the vault record for `authority` with the given points rate;
/// the vault starts unpaused.
pub fn initialize_vault(authority: u64, bump: u8, signer_bump: u8, base_points_rate: u64) -> (v: Vault)
    ensures
        v == (Vault { authority, bump, signer_bump, base_points_rate, paused: false }),
{
    Vault { authority, bump, signer_bump, base_points_rate, paused: false }
}

/// Overwrite the vault's points rate and pause flag.  Only the vault's
/// authority may do so; the new rate is deliberately not range-checked.
pub fn update_vault_params(
    vault: &mut Vault,
    authority: u64,
    new_base_rate: u64,
    paused: bool,
) -> (r: Result<(), VaultError>)
    ensures
        authority != old(vault).authority ==> r == Err::<(), VaultError>(VaultError::Unauthorized)
            && *final(vault) == *old(vault),
        authority == old(vault).authority ==> r == Ok::<(), VaultError>(())
            && *final(vault) == (Vault { base_points_rate: new_base_rate, paused, ..*old(vault) }),
{
    if authority != vault.authority {
        return Err(VaultError::Unauthorized);
    }
    vault.base_points_rate = new_base_rate;
    vault.paused = paused;
    Ok(())
}

/// Register a pool for the asset `mint` under `vault`, with a points
/// multiplier of 1 to 10000 basis points; totals start at zero.
pub fn register_token(
    vault: &Vault,
    vault_key: u64,
    authority: u64,
    mint: u64,
    vault_token_account: u64,
    bump: u8,
    points_multiplier_bps: u16,
) -> (r: Result<(VaultToken, TokenRegistered), VaultError>)
    ensures
        authority != vault.authority ==> r == Err::<(VaultToken, TokenRegistered), VaultError>(
            VaultError::Unauthorized,
        ),
        authority == vault.authority && (points_multiplier_bps == 0 || points_multiplier_bps > MAX_BPS)
            ==> r == Err::<(VaultToken, TokenRegistered), VaultError>(VaultError::InvalidMultiplier),
        r is Ok <==> (authority == vault.authority && 0 < points_multiplier_bps <= MAX_BPS),
        r is Ok ==> r->Ok_0.0 == (VaultToken {
            vault: vault_key,
            mint,
            vault_token_account,
            total_underlying: 0,
            total_shares: 0,
            points_multiplier_bps,
            bump,
        }) && r->Ok_0.1 == (TokenRegistered { mint, multiplier_bps: points_multiplier_bps }),
{
    if authority != vault.authority {
        return Err(VaultError::Unauthorized);
    }
    if points_multiplier_bps == 0 {
        return Err(VaultError::InvalidMultiplier);
    }
    if points_multiplier_bps > MAX_BPS {
        return Err(VaultError::InvalidMultiplier);
    }
    let vault_token = VaultToken {
        vault: vault_key,
        mint,
        vault_token_account,
        total_underlying: 0,
        total_shares: 0,
        points_multiplier_bps,
        bump,
    };
    let event = TokenRegistered { mint, multiplier_bps: points_multiplier_bps };
    Ok((vault_token, event))
}

/// Register a yield strategy for a pool.  The weight is capped at 10000
/// basis points; weights across a pool's strategies are deliberately not
/// required to sum to anything.
pub fn register_strategy(
    vault: &Vault,
    authority: u64,
    vault_token_key: u64,
    strategy_key: u64,
    strategy_id: u8,
    weight_bps: u16,
) -> (r: Result<(Strategy, StrategyRegistered), VaultError>)
    ensures
        authority != vault.authority ==> r == Err::<(Strategy, StrategyRegistered), VaultError>(
            VaultError::Unauthorized,
        ),
        authority == vault.authority && weight_bps > MAX_BPS ==> r == Err::<
            (Strategy, StrategyRegistered),
            VaultError,
        >(VaultError::InvalidMultiplier),
        r is Ok <==> (authority == vault.authority && weight_bps <= MAX_BPS),
        r is Ok ==> r->Ok_0.0 == (Strategy {
            vault_token: vault_token_key,
            authority,
            strategy_id,
            weight_bps,
            last_harvest_ts: 0,
        }) && r->Ok_0.1 == (StrategyRegistered {
            vault_token: vault_token_key,
            strategy: strategy_key,
            weight_bps,
        }),
{
    if authority != vault.authority {
        return Err(VaultError::Unauthorized);
    }
    if weight_bps > MAX_BPS {
        return Err(VaultError::InvalidMultiplier);
    }
    let strategy = Strategy {
        vault_token: vault_token_key,
        authority,
        strategy_id,
        weight_bps,
        last_harvest_ts: 0,
    };
    let event = StrategyRegistered { vault_token: vault_token_key, strategy: strategy_key, weight_bps };
    Ok((strategy, event))
}

/// Book externally realised yield into a pool: `yield_amount` is added to
/// the pool's underlying with no shares minted, which raises the share
/// price for every existing holder; the strategy records the harvest time.
/// Only the vault's authority may harvest, and a zero yield is rejected.
pub fn harvest(
    vault: &Vault,
    vault_token: &mut VaultToken,
    strategy: &mut Strategy,
    strategy_key: u64,
    keeper: u64,
    yield_amount: u64,
    now: i64,
) -> (r: Result<HarvestEvent, VaultError>)
    ensures
        yield_amount == 0 ==> r == Err::<HarvestEvent, VaultError>(VaultError::InvalidAmount),
        yield_amount != 0 && keeper != vault.authority ==> r == Err::<HarvestEvent, VaultError>(
            VaultError::Unauthorized,
        ),
        yield_amount != 0 && keeper == vault.authority
            && old(vault_token).total_underlying + yield_amount > u64::MAX ==> r == Err::<
            HarvestEvent,
            VaultError,
        >(VaultError::MathOverflow),
        r is Ok <==> (yield_amount != 0 && keeper == vault.authority
            && old(vault_token).total_underlying + yield_amount <= u64::MAX),
        r is Err ==> *final(vault_token) == *old(vault_token) && *final(strategy) == *old(strategy),
        r is Ok ==> *final(vault_token) == (VaultToken {
            total_underlying: (old(vault_token).total_underlying + yield_amount) as u64,
            ..*old(vault_token)
        }) && *final(strategy) == (Strategy { last_harvest_ts: now, ..*old(strategy) })
            && r->Ok_0 == (HarvestEvent {
            strategy: strategy_key,
            mint: old(vault_token).mint,
            yield_amount,
        }),
        // no shares are minted, and the share price strictly increases for a
        // pool with existing shares, compared in rational arithmetic:
        final(vault_token).total_shares == old(vault_token).total_shares,
        (r is Ok && old(vault_token).total_shares > 0)
            ==> final(vault_token).total_underlying * old(vault_token).total_shares
                > old(vault_token).total_underlying * final(vault_token).total_shares,
        pool_solvent(*old(vault_token)) ==> pool_solvent(*final(vault_token)),
{
    if yield_amount == 0 {
        return Err(VaultError::InvalidAmount);
    }
    if keeper != vault.authority {
        return Err(VaultError::Unauthorized);
    }
    let new_underlying: u64 = match vault_token.total_underlying.checked_add(yield_amount) {
        Some(v) => v,
        None => {
            return Err(VaultError::MathOverflow);
        },
    };
    vault_token.total_underlying = new_underlying;
    strategy.last_harvest_ts = now;
    proof {
        if old(vault_token).total_shares > 0 {
            vstd::arithmetic::mul::lemma_mul_strict_inequality(
                old(vault_token).total_underlying as int,
                new_underlying as int,
                old(vault_token).total_shares as int,
            );
        }
    }
    Ok(HarvestEvent { strategy: strategy_key, mint: vault_token.mint, yield_amount })
}

} // verus!

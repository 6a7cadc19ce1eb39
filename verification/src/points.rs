//! Points accrual engine: time-weighted loyalty points for a position.
//!
//! Accrual is retroactive: it is invoked immediately before any mutation of
//! a position's share balance, over the balance and pool state as they stood
//! before that mutation.  The formula floors, but every accrual that covers
//! a positive interval on a position actually holding shares contributes at
//! least one point, so small balances are never starved by integer flooring.

use vstd::prelude::*;

use crate::errors::VaultError;
use crate::state::{Vault, VaultToken, UserPosition, DAY_IN_SECONDS, MAX_BPS};

verus! {

/// A position accrues only when it has been touched before, holds shares,
/// and the pool has shares outstanding.
pub open spec fn accrual_active(pos: UserPosition, total_shares: u64) -> bool {
    pos.user != 0 && pos.shares != 0 && total_shares != 0
}

/// The elapsed interval `now - last_points_ts`, computed in 64-bit signed
/// arithmetic by the engine, does not fit.
pub open spec fn elapsed_out_of_range(pos: UserPosition, now: i64) -> bool {
    now - pos.last_points_ts > i64::MAX || now - pos.last_points_ts < i64::MIN
}

/// Value, in underlying units, that `shares` of a pool currently represent:
/// `shares * total_underlying / total_shares`, floored (the divisor is
/// clamped to 1 so the expression is total).
pub open spec fn underlying_value(shares: u64, total_underlying: u64, total_shares: u64) -> int {
    (shares * total_underlying) / (if total_shares == 0 {
        1int
    } else {
        total_shares as int
    })
}

/// Points earned for holding `value` units over `elapsed` seconds, at
/// `rate` points per unit-value per day scaled by `multiplier_bps`:
/// one single final division, floored.
pub open spec fn raw_points(value: int, elapsed: int, rate: u64, multiplier_bps: u16) -> int {
    (value * elapsed * rate * multiplier_bps) / ((DAY_IN_SECONDS as int) * (MAX_BPS as int))
}

/// The booked gain: the floored formula, forced to a minimum of one point.
pub open spec fn points_gain(value: int, elapsed: int, rate: u64, multiplier_bps: u16) -> int {
    let p = raw_points(value, elapsed, rate, multiplier_bps);
    if p < 1 {
        1
    } else {
        p
    }
}

/// One of the 128-bit intermediate products of the formula, taken in
/// evaluation order, exceeds `u128::MAX`.
pub open spec fn accrual_mul_overflows(value: int, elapsed: int, rate: u64, multiplier_bps: u16) -> bool {
    ||| value * elapsed > u128::MAX
    ||| value * elapsed * rate > u128::MAX
    ||| value * elapsed * rate * multiplier_bps > u128::MAX
}

/// The value the position's shares represent in its pool.
pub open spec fn position_value(pos: UserPosition, vault_token: VaultToken) -> int {
    underlying_value(pos.shares, vault_token.total_underlying, vault_token.total_shares)
}

/// The gain an accrual at `now` books for this position.
pub open spec fn accrual_gain(vault: Vault, vault_token: VaultToken, pos: UserPosition, now: i64) -> int {
    points_gain(
        position_value(pos, vault_token),
        now - pos.last_points_ts,
        vault.base_points_rate,
        vault_token.points_multiplier_bps,
    )
}

/// An accrual at `now` aborts with `MathOverflow`: only an active position
/// can fail, either because the elapsed interval does not fit in 64 bits or
/// because the points arithmetic overflows.
pub open spec fn accrual_fails(vault: Vault, vault_token: VaultToken, pos: UserPosition, now: i64) -> bool {
    accrual_active(pos, vault_token.total_shares) && {
        let e = now - pos.last_points_ts;
        if e > i64::MAX || e < i64::MIN {
            true
        } else if e <= 0 {
            false
        } else {
            accrual_mul_overflows(
                position_value(pos, vault_token),
                e,
                vault.base_points_rate,
                vault_token.points_multiplier_bps,
            ) || pos.cumulative_points + accrual_gain(vault, vault_token, pos, now) > u128::MAX
        }
    }
}

/// The position after a successful accrual at `now`: an inactive position
/// only refreshes its timestamp, a non-positive interval changes nothing,
/// and a positive interval books the gain and refreshes the timestamp.
pub open spec fn accrued_position(vault: Vault, vault_token: VaultToken, pos: UserPosition, now: i64) -> UserPosition
    recommends
        !accrual_fails(vault, vault_token, pos, now),
{
    if !accrual_active(pos, vault_token.total_shares) {
        UserPosition { last_points_ts: now, ..pos }
    } else if now - pos.last_points_ts <= 0 {
        pos
    } else {
        UserPosition {
            cumulative_points: (pos.cumulative_points + accrual_gain(vault, vault_token, pos, now)) as u128,
            last_points_ts: now,
            ..pos
        }
    }
}

/// Book the time-weighted points owed to `user_position` for the interval
/// ending at `now`, against the pool state as it currently stands.
///
/// Points are only ever added, the balance is untouched on failure, and a
/// zero or negative interval never changes the balance; a positive interval
/// on an active position adds at least one point.
pub fn accrue_points(
    vault: &Vault,
    vault_token: &VaultToken,
    user_position: &mut UserPosition,
    now: i64,
) -> (r: Result<(), VaultError>)
    ensures
        r is Err <==> accrual_fails(*vault, *vault_token, *old(user_position), now),
        r is Err ==> r == Err::<(), VaultError>(VaultError::MathOverflow)
            && *final(user_position) == *old(user_position),
        r is Ok ==> *final(user_position) == accrued_position(*vault, *vault_token, *old(user_position), now),
        final(user_position).shares == old(user_position).shares,
        final(user_position).user == old(user_position).user,
        final(user_position).vault_token == old(user_position).vault_token,
        final(user_position).bump == old(user_position).bump,
        final(user_position).cumulative_points >= old(user_position).cumulative_points,
        now <= old(user_position).last_points_ts
            ==> final(user_position).cumulative_points == old(user_position).cumulative_points,
        (r is Ok && accrual_active(*old(user_position), vault_token.total_shares)
            && now > old(user_position).last_points_ts)
            ==> final(user_position).cumulative_points >= old(user_position).cumulative_points + 1,
{
    if user_position.user == 0 || user_position.shares == 0 || vault_token.total_shares == 0 {
        user_position.last_points_ts = now;
        return Ok(());
    }
    let elapsed_wide: i128 = (now as i128) - (user_position.last_points_ts as i128);
    if elapsed_wide > i64::MAX as i128 || elapsed_wide < i64::MIN as i128 {
        return Err(VaultError::MathOverflow);
    }
    if elapsed_wide <= 0 {
        return Ok(());
    }
    let elapsed: u128 = elapsed_wide as u128;
    assert((user_position.shares as int) * (vault_token.total_underlying as int) <= u128::MAX)
        by (nonlinear_arith)
        requires
            user_position.shares <= u64::MAX,
            vault_token.total_underlying <= u64::MAX,
    ;
    let value: u128 = ((user_position.shares as u128) * (vault_token.total_underlying as u128))
        / (vault_token.total_shares as u128);
    let scaled_time: u128 = match value.checked_mul(elapsed) {
        Some(v) => v,
        None => {
            return Err(VaultError::MathOverflow);
        },
    };
    let scaled_rate: u128 = match scaled_time.checked_mul(vault.base_points_rate as u128) {
        Some(v) => v,
        None => {
            return Err(VaultError::MathOverflow);
        },
    };
    let scaled_mult: u128 = match scaled_rate.checked_mul(vault_token.points_multiplier_bps as u128) {
        Some(v) => v,
        None => {
            return Err(VaultError::MathOverflow);
        },
    };
    let denominator: u128 = (DAY_IN_SECONDS as u128) * (MAX_BPS as u128);
    let points: u128 = scaled_mult / denominator;
    let gain: u128 = if points < 1 {
        1
    } else {
        points
    };
    let new_points: u128 = match user_position.cumulative_points.checked_add(gain) {
        Some(v) => v,
        None => {
            return Err(VaultError::MathOverflow);
        },
    };
    user_position.cumulative_points = new_points;
    user_position.last_points_ts = now;
    Ok(())
}

} // verus!

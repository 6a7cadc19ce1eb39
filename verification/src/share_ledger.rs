//! Share ledger: conversion between underlying amounts and pool shares.
//!
//! The share price of a pool is `total_underlying / total_shares`.  Both
//! conversions floor — never round up — so dust stays with the pool.

use vstd::prelude::*;

use crate::errors::VaultError;
use crate::state::VaultToken;

verus! {

/// Shares minted for depositing `amount` into a pool holding
/// `total_underlying` against `total_shares` outstanding.  An empty pool
/// (no shares, or no underlying) mints 1:1, defining the initial price of
/// one unit of value per share; otherwise the amount is converted at the
/// current price, floored.
pub open spec fn shares_for_deposit(amount: u64, total_shares: u64, total_underlying: u64) -> int {
    if total_shares == 0 || total_underlying == 0 {
        amount as int
    } else {
        (amount * total_shares) / (total_underlying as int)
    }
}

/// Shares burned to withdraw `amount`, at the current price, floored.
/// Meaningful only for a pool with underlying value.
pub open spec fn shares_for_withdraw(amount: u64, total_shares: u64, total_underlying: u64) -> int
    recommends
        total_underlying > 0,
{
    (amount * total_shares) / (total_underlying as int)
}

/// Convert a deposit amount into shares for `vault_token`'s pool.
///
/// The product is taken in 128 bits, so it never overflows; the quotient is
/// narrowed back to `u64`, and a quotient that does not fit is a fatal
/// `MathOverflow` (overflow is never wrapped or truncated).
pub fn calculate_shares(amount: u64, vault_token: &VaultToken) -> (r: Result<u64, VaultError>)
    ensures
        ({
            let s = shares_for_deposit(amount, vault_token.total_shares, vault_token.total_underlying);
            if s <= u64::MAX {
                r == Ok::<u64, VaultError>(s as u64)
            } else {
                r == Err::<u64, VaultError>(VaultError::MathOverflow)
            }
        }),
{
    if vault_token.total_shares == 0 || vault_token.total_underlying == 0 {
        return Ok(amount);
    }
    assert((amount as int) * (vault_token.total_shares as int) <= u128::MAX) by (nonlinear_arith)
        requires
            amount <= u64::MAX,
            vault_token.total_shares <= u64::MAX,
    ;
    let numerator: u128 = (amount as u128) * (vault_token.total_shares as u128);
    let quotient: u128 = numerator / (vault_token.total_underlying as u128);
    if quotient > u64::MAX as u128 {
        return Err(VaultError::MathOverflow);
    }
    Ok(quotient as u64)
}

/// Convert a withdrawal amount into shares to burn.  A pool without
/// underlying value cannot be withdrawn from (`InvalidAmount`); narrowing
/// behaves as in [`calculate_shares`].
pub fn calculate_shares_for_withdraw(amount: u64, vault_token: &VaultToken) -> (r: Result<
    u64,
    VaultError,
>)
    ensures
        vault_token.total_underlying == 0 ==> r == Err::<u64, VaultError>(VaultError::InvalidAmount),
        vault_token.total_underlying > 0 ==> ({
            let s = shares_for_withdraw(amount, vault_token.total_shares, vault_token.total_underlying);
            if s <= u64::MAX {
                r == Ok::<u64, VaultError>(s as u64)
            } else {
                r == Err::<u64, VaultError>(VaultError::MathOverflow)
            }
        }),
{
    if vault_token.total_underlying == 0 {
        return Err(VaultError::InvalidAmount);
    }
    assert((amount as int) * (vault_token.total_shares as int) <= u128::MAX) by (nonlinear_arith)
        requires
            amount <= u64::MAX,
            vault_token.total_shares <= u64::MAX,
    ;
    let numerator: u128 = (amount as u128) * (vault_token.total_shares as u128);
    let quotient: u128 = numerator / (vault_token.total_underlying as u128);
    if quotient > u64::MAX as u128 {
        return Err(VaultError::MathOverflow);
    }
    Ok(quotient as u64)
}

/// Law: an isolated withdrawal leaves the share price unchanged within
/// flooring tolerance.  With `U = total_underlying > 0`, `S = total_shares`
/// and an amount `a <= U` burning `s = floor(a*S/U)` shares, the old and new
/// prices compared in rational arithmetic satisfy
/// `(U - a)*S <= U*(S - s) < (U - a)*S + U`:
/// the cross-multiplied prices differ by less than one unit of underlying
/// per share, the bias favouring nobody by more than the floored dust.
pub proof fn lemma_withdraw_price_within_tolerance(amount: u64, total_shares: u64, total_underlying: u64)
    requires
        total_underlying > 0,
        amount <= total_underlying,
    ensures
        ({
            let s = shares_for_withdraw(amount, total_shares, total_underlying);
            let u = total_underlying as int;
            let ts = total_shares as int;
            let a = amount as int;
            (u - a) * ts <= u * (ts - s) && u * (ts - s) < (u - a) * ts + u
        }),
{
    let s = shares_for_withdraw(amount, total_shares, total_underlying);
    let u = total_underlying as int;
    let ts = total_shares as int;
    let a = amount as int;
    let p = a * ts;
    vstd::arithmetic::div_mod::lemma_fundamental_div_mod(p, u);
    vstd::arithmetic::div_mod::lemma_mod_bound(p, u);
    assert(p == u * s + p % u);
    assert(u * (ts - s) == u * ts - u * s) by (nonlinear_arith);
    assert((u - a) * ts == u * ts - a * ts) by (nonlinear_arith);
}

/// Law: an isolated deposit never decreases the share price.  Flooring the
/// minted shares — never rounding up — means a depositor can only leave
/// value behind: with `U = total_underlying > 0` and `S = total_shares`,
/// depositing `a` mints `s = floor(a*S/U)` and, compared in rational
/// arithmetic, `(U + a)/(S + s) >= U/S`.
pub proof fn lemma_deposit_price_never_decreases(amount: u64, total_shares: u64, total_underlying: u64)
    requires
        total_underlying > 0,
        total_shares > 0,
    ensures
        ({
            let s = shares_for_deposit(amount, total_shares, total_underlying);
            let u = total_underlying as int;
            let ts = total_shares as int;
            let a = amount as int;
            (u + a) * ts >= u * (ts + s)
        }),
{
    let s = shares_for_deposit(amount, total_shares, total_underlying);
    let u = total_underlying as int;
    let ts = total_shares as int;
    let a = amount as int;
    let p = a * ts;
    vstd::arithmetic::div_mod::lemma_fundamental_div_mod(p, u);
    vstd::arithmetic::div_mod::lemma_mod_bound(p, u);
    assert(u * s <= p);
    assert(u * (ts + s) == u * ts + u * s) by (nonlinear_arith);
    assert((u + a) * ts == u * ts + a * ts) by (nonlinear_arith);
}

/// Law: withdrawing the pool's entire underlying burns all outstanding
/// shares — the floored conversion is exact on the full balance, so a full
/// drain cannot leave shares against an empty pool.
pub proof fn lemma_full_withdraw_burns_all_shares(total_shares: u64, total_underlying: u64)
    requires
        total_underlying > 0,
    ensures
        shares_for_withdraw(total_underlying, total_shares, total_underlying) == total_shares as int,
{
    let u = total_underlying as int;
    let ts = total_shares as int;
    vstd::arithmetic::div_mod::lemma_div_multiples_vanish(ts, u);
    assert(u * ts == ts * u) by (nonlinear_arith);
}

} // verus!

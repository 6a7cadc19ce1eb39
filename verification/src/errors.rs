//! Failure kinds of the vault operations.

use vstd::prelude::*;

verus! {

/// Every operation either fully succeeds or aborts with exactly one of these
/// kinds; nothing is retried or partially committed.
#[derive(Clone, Copy, Debug, PartialEq, Eq, Structural)]
pub enum VaultError {
    /// The caller is not the vault's designated authority.
    Unauthorized,
    /// A basis-point parameter is zero or exceeds the 10000 bps cap.
    InvalidMultiplier,
    /// A monetary amount is zero, or a withdrawal exceeds the pool's balance.
    InvalidAmount,
    /// Fixed-width arithmetic would overflow; always fatal, never wrapped.
    MathOverflow,
    /// The vault is paused and accepts no deposits.
    VaultPaused,
    /// The requested conversion floors to zero shares.
    ZeroShares,
    /// The position holds fewer shares than the operation needs.
    InsufficientShares,
    /// The supplied inviter is the depositor, or the auxiliary inviter
    /// account does not belong to the bound inviter.
    InvalidInviter,
    /// The record's inviter is already bound to a different value (or the
    /// depositor tries to claim "no inviter" after binding one).
    InviterLocked,
    /// The record carries a bound inviter but no inviter account was supplied.
    InviterAccountMissing,
    /// An inviter account was supplied although no inviter is bound.
    UnexpectedInviterAccount,
    /// The record store failed to read or write a record.
    AccountSerialization,
    /// The supplied referral account is not at the depositor's derived address.
    InvalidReferralAccount,
}

} // verus!

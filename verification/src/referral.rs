//! Referral graph: inviter binding and the flat inviter bonus.
//!
//! A referral record binds a participant to at most one inviter.  The bound
//! inviter transitions exactly once from unset (0) to a fixed key; every
//! later deposit must present the same inviter — or none if none was ever
//! bound — and self-invites are always rejected.  An inviter earns a flat
//! 5% of each invited deposit, booked instantly, not scaled by time.

use vstd::prelude::*;

use crate::errors::VaultError;
use crate::state::{ReferralRecord, MAX_BPS, REFERRAL_BONUS_BPS};

verus! {

/// The inviter a record holds after a binding attempt that supplied
/// `supplied`: once set it never changes.
pub open spec fn bound_inviter(current: u64, supplied: u64) -> u64 {
    if current == 0 {
        supplied
    } else {
        current
    }
}

/// Why a deposit by `user` supplying `supplied` as inviter is rejected, if
/// it is: a self-invite is `InvalidInviter`; presenting an inviter other
/// than the bound one — including "none" after one was bound — is
/// `InviterLocked`.
pub open spec fn binding_error(current: u64, user: u64, supplied: u64) -> Option<VaultError> {
    if supplied != 0 {
        if supplied == user {
            Some(VaultError::InvalidInviter)
        } else if current != 0 && current != supplied {
            Some(VaultError::InviterLocked)
        } else {
            None
        }
    } else {
        if current != 0 {
            Some(VaultError::InviterLocked)
        } else {
            None
        }
    }
}

/// Flat bonus an inviter earns on an invited deposit of `amount`:
/// 5% (500 of 10000 basis points), floored.
pub open spec fn referral_bonus(amount: u64) -> int {
    (amount * REFERRAL_BONUS_BPS) / (MAX_BPS as int)
}

/// An auxiliary referral account as the depositor supplies it: the key of
/// the participant it was resolved for, and its current contents.
#[derive(Clone, Copy, Debug, PartialEq, Eq, Structural)]
pub struct InviterAccount {
    pub key: u64,
    pub record: ReferralRecord,
}

/// The inviter's record after a deposit of `amount` credits it: owner
/// fields are initialised if the record is fresh, and the flat bonus is
/// added to `points_from_invites`.
pub open spec fn credited_inviter_record(account: InviterAccount, vault_key: u64, amount: u64) -> ReferralRecord
    recommends
        account.record.points_from_invites + referral_bonus(amount) <= u128::MAX,
{
    let base = if account.record.user == 0 {
        ReferralRecord { user: account.key, vault: vault_key, ..account.record }
    } else {
        account.record
    };
    ReferralRecord {
        points_from_invites: (base.points_from_invites + referral_bonus(amount)) as u128,
        ..base
    }
}

/// Law: inviter binding is idempotent.  Once a deposit binds `supplied`
/// without error, presenting the same inviter again binds nothing new and
/// raises no error: the record's inviter is a fixed point.
pub proof fn lemma_inviter_binding_idempotent(current: u64, user: u64, supplied: u64)
    requires
        supplied != 0,
        binding_error(current, user, supplied) is None,
    ensures
        bound_inviter(current, supplied) == supplied,
        bound_inviter(bound_inviter(current, supplied), supplied) == bound_inviter(current, supplied),
        binding_error(bound_inviter(current, supplied), user, supplied) is None,
{
}

/// Law: once an inviter is bound, presenting any different inviter —
/// another key or none at all — fails with `InviterLocked`.
pub proof fn lemma_inviter_rebind_rejected(current: u64, user: u64, first: u64, second: u64)
    requires
        first != 0,
        binding_error(current, user, first) is None,
        second != first,
        second != user,
    ensures
        binding_error(bound_inviter(current, first), user, second) == Some(VaultError::InviterLocked),
{
}

/// Law: a self-invite is rejected whatever the record holds — the rejection
/// depends only on the supplied key equalling the depositor's.
pub proof fn lemma_self_invite_rejected(current: u64, user: u64)
    requires
        user != 0,
    ensures
        binding_error(current, user, user) == Some(VaultError::InvalidInviter),
{
}

} // verus!

//! The fungible-token interface this program delegates transfers to,
//! modeled at its boundary.
//!
//! The host's token program keeps each token account's balance and
//! controlling authority; this module states what its three operations do
//! to that state, in the order its checks run: a transfer rejects an
//! insufficient source before an unauthorized caller, and an unauthorized
//! caller before a destination overflow. An account whose storage-rent
//! balance reaches zero is reclaimed by the host and ceases to exist.

use vstd::prelude::*;
use crate::error::TokenError;
use crate::identity::Identity;

verus! {

/// The observable state of one token account: who controls it, the token
/// units it holds, and the storage-rent balance that keeps it alive.
#[derive(Clone, Copy, Debug)]
pub struct TokenAccount {
    /// The authority that may move the account's funds.
    pub owner: Identity,
    /// The token units the account holds.
    pub amount: u64,
    /// The account's storage-rent balance on the host ledger.
    pub lamports: u64,
}

/// The mathematical content of a token account.
pub struct TokenAccountView {
    pub owner: Seq<u8>,
    pub amount: u64,
    pub lamports: u64,
}

impl View for TokenAccount {
    type V = TokenAccountView;

    open spec fn view(&self) -> TokenAccountView {
        TokenAccountView { owner: self.owner@, amount: self.amount, lamports: self.lamports }
    }
}

/// Why a transfer of `amount` units from `src` to `dst`, presented by
/// `authority`, would be rejected; `None` when it succeeds.
pub open spec fn spec_transfer_error(
    src: TokenAccountView,
    dst: TokenAccountView,
    amount: u64,
    authority: Seq<u8>,
) -> Option<TokenError> {
    if src.amount < amount {
        Some(TokenError::InsufficientFunds)
    } else if authority != src.owner {
        Some(TokenError::OwnerMismatch)
    } else if dst.amount + amount > u64::MAX {
        Some(TokenError::Overflow)
    } else {
        None
    }
}

/// Why reassigning `account`'s authority, presented by `authority`, would
/// be rejected; `None` when it succeeds.
pub open spec fn spec_set_authority_error(
    account: TokenAccountView,
    authority: Seq<u8>,
) -> Option<TokenError> {
    if authority != account.owner {
        Some(TokenError::OwnerMismatch)
    } else {
        None
    }
}

/// Why closing `account` into a destination holding `dst_lamports`,
/// presented by `authority`, would be rejected; `None` when it succeeds.
pub open spec fn spec_close_error(
    account: TokenAccountView,
    dst_lamports: u64,
    authority: Seq<u8>,
) -> Option<TokenError> {
    if account.amount != 0 {
        Some(TokenError::HasBalance)
    } else if authority != account.owner {
        Some(TokenError::OwnerMismatch)
    } else if dst_lamports + account.lamports > u64::MAX {
        Some(TokenError::Overflow)
    } else {
        None
    }
}

/// Moves `amount` token units from `src` to `dst` on the authority of
/// `authority`, or rejects the request and changes nothing.
pub fn transfer(src: &mut TokenAccount, dst: &mut TokenAccount, amount: u64, authority: &Identity)
    -> (r: Result<(), TokenError>)
    ensures
        match spec_transfer_error(old(src)@, old(dst)@, amount, authority@) {
            Some(e) => r == Err::<(), TokenError>(e) && *final(src) == *old(src) && *final(dst)
                == *old(dst),
            None => r is Ok && final(src)@ == (TokenAccountView {
                amount: (old(src).amount - amount) as u64,
                ..old(src)@
            }) && final(dst)@ == (TokenAccountView {
                amount: (old(dst).amount + amount) as u64,
                ..old(dst)@
            }),
        },
{
    if src.amount < amount {
        return Err(TokenError::InsufficientFunds);
    }
    if !(authority == &src.owner) {
        return Err(TokenError::OwnerMismatch);
    }
    if dst.amount > u64::MAX - amount {
        return Err(TokenError::Overflow);
    }
    src.amount = src.amount - amount;
    dst.amount = dst.amount + amount;
    Ok(())
}

/// Hands control of `account` to `new_authority` on the authority of
/// `current_authority`, or rejects the request and changes nothing.
pub fn set_authority(
    account: &mut TokenAccount,
    new_authority: &Identity,
    current_authority: &Identity,
) -> (r: Result<(), TokenError>)
    ensures
        match spec_set_authority_error(old(account)@, current_authority@) {
            Some(e) => r == Err::<(), TokenError>(e) && *final(account) == *old(account),
            None => r is Ok && final(account)@ == (TokenAccountView {
                owner: new_authority@,
                ..old(account)@
            }),
        },
{
    if !(current_authority == &account.owner) {
        return Err(TokenError::OwnerMismatch);
    }
    account.owner = *new_authority;
    Ok(())
}

/// Closes an emptied `account`, crediting its storage-rent balance to a
/// destination holding `dst_lamports`, on the authority of `authority`;
/// or rejects the request and changes nothing. A closed account keeps
/// nothing: with zero lamports the host reclaims it.
pub fn close_account(account: &mut TokenAccount, dst_lamports: &mut u64, authority: &Identity)
    -> (r: Result<(), TokenError>)
    ensures
        match spec_close_error(old(account)@, *old(dst_lamports), authority@) {
            Some(e) => r == Err::<(), TokenError>(e) && *final(account) == *old(account)
                && *final(dst_lamports) == *old(dst_lamports),
            None => r is Ok && final(account)@ == (TokenAccountView {
                amount: 0,
                lamports: 0,
                ..old(account)@
            }) && *final(dst_lamports) == *old(dst_lamports) + old(account).lamports,
        },
{
    if account.amount != 0 {
        return Err(TokenError::HasBalance);
    }
    if !(authority == &account.owner) {
        return Err(TokenError::OwnerMismatch);
    }
    if *dst_lamports > u64::MAX - account.lamports {
        return Err(TokenError::Overflow);
    }
    *dst_lamports = *dst_lamports + account.lamports;
    account.lamports = 0;
    Ok(())
}

} // verus!

//! Failure outcomes of the escrow operations.

use vstd::prelude::*;

verus! {

/// Errors raised by the escrow program's own validation rules.
///
/// Each variant is a terminal outcome for the operation that raised it;
/// no operation mutates any state before returning one of these.
#[derive(Clone, Copy, Debug, PartialEq, Eq, Structural)]
pub enum EscrowError {
    /// The instruction payload is malformed or names no known operation.
    InvalidInstruction,
    /// A party that must sign the request did not sign it.
    MissingRequiredSignature,
    /// An account is not owned by the expected collaborator program.
    IncorrectProgramId,
    /// A newly used storage account lacks the minimum balance needed for
    /// permanent retention.
    NotRentExempt,
    /// Initiation was attempted over a ledger entry that is already live.
    AccountAlreadyInitialized,
    /// A referenced account does not decode as required, or its identity
    /// does not match what the ledger entry recorded.
    InvalidAccountData,
    /// The counterparty's declared expectation disagrees with the custody
    /// account's actual balance.
    ExpectedAmountMismatch,
    /// Arithmetic overflow while consolidating reclaimed balances.
    AmountOverflow,
}

/// Rejections of the token interface, propagated unchanged by the escrow
/// operations when one of the delegated transfers fails.
#[derive(Clone, Copy, Debug, PartialEq, Eq, Structural)]
pub enum TokenError {
    /// The source account holds less than the requested amount.
    InsufficientFunds,
    /// The presented authority does not control the account.
    OwnerMismatch,
    /// Crediting the destination would overflow its balance.
    Overflow,
    /// A token account cannot be closed while it still holds a balance.
    HasBalance,
}

/// Any failure an escrow operation can end with: one of the program's own
/// errors, a token-interface rejection passed through unchanged, or the
/// (statistically improbable) absence of a viable authority derivation.
#[derive(Clone, Copy, Debug, PartialEq, Eq, Structural)]
pub enum ProcessError {
    /// A validation rule of this program failed.
    Escrow(EscrowError),
    /// The token interface rejected a delegated operation.
    Token(TokenError),
    /// No program-derived authority exists for the program's identity.
    AuthorityUnavailable,
}

} // verus!

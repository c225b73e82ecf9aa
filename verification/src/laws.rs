//! The protocol's guarantees, stated and proved over the operations'
//! specifications.
//!
//! Each lemma speaks about `spec_init` or `spec_exchange`, the functions
//! that the executable operations are proved to implement exactly; the
//! operations' own contracts add that a rejected request leaves every
//! account exactly as it was.

use vstd::prelude::*;
use crate::error::{EscrowError, ProcessError};
use crate::processor::{spec_exchange, spec_init, ExchangeAccountsView, InitAccountsView};
use crate::state::{lemma_codec_round_trip, spec_decode, EntryView};
use crate::authority::spec_token_interface_id;

verus! {

/// Custody transfer correctness: a successful initiation hands the
/// custody account's controlling authority to the derived authority,
/// moves no funds, and the ledger entry records exactly the supplied
/// initiator, custody account, receive account and amount.
pub proof fn lemma_init_custody_and_terms(
    a: InitAccountsView,
    amount: u64,
    authority: Seq<u8>,
    v: InitAccountsView,
)
    requires
        a.wf(),
        spec_init(a, amount, authority) == Ok::<InitAccountsView, ProcessError>(v),
    ensures
        v.temp_token_account.owner == authority,
        v.temp_token_account.amount == a.temp_token_account.amount,
        spec_decode(v.escrow_account_data) == Some(
            EntryView {
                is_initialized: true,
                initializer: a.initializer,
                custody: a.temp_token_account_key,
                receive: a.token_to_receive_account_key,
                expected_amount: amount,
            },
        ),
{
    lemma_codec_round_trip(
        EntryView {
            is_initialized: true,
            initializer: a.initializer,
            custody: a.temp_token_account_key,
            receive: a.token_to_receive_account_key,
            expected_amount: amount,
        },
    );
}

/// No double-initialization: initiating again over the ledger entry a
/// successful initiation wrote fails with `AccountAlreadyInitialized`,
/// whatever identities or amount the second request supplies, and (by
/// the operation's contract) changes nothing.
pub proof fn lemma_no_double_init(
    a: InitAccountsView,
    amount: u64,
    authority: Seq<u8>,
    v: InitAccountsView,
    b: InitAccountsView,
    second_amount: u64,
    second_authority: Seq<u8>,
)
    requires
        a.wf(),
        spec_init(a, amount, authority) == Ok::<InitAccountsView, ProcessError>(v),
        b.escrow_account_data == v.escrow_account_data,
        b.initializer_is_signer,
        b.token_to_receive_account_owner == spec_token_interface_id(),
        b.rent_is_exempt,
    ensures
        spec_init(b, second_amount, second_authority) == Err::<InitAccountsView, ProcessError>(
            ProcessError::Escrow(EscrowError::AccountAlreadyInitialized),
        ),
{
    lemma_codec_round_trip(
        EntryView {
            is_initialized: true,
            initializer: a.initializer,
            custody: a.temp_token_account_key,
            receive: a.token_to_receive_account_key,
            expected_amount: amount,
        },
    );
}

/// Atomic swap: when a settlement succeeds, the declared amount matched
/// the custody balance, the initiator's receive account grew by exactly
/// the demanded amount, the counterparty's receive account grew by
/// exactly the custody balance, the counterparty paid exactly the
/// demanded amount, and the custody account and ledger entry are gone,
/// their storage-rent balances credited to the initiator.
pub proof fn lemma_atomic_swap(
    a: ExchangeAccountsView,
    amount_expected_by_taker: u64,
    authority: Seq<u8>,
    v: ExchangeAccountsView,
)
    requires
        spec_exchange(a, amount_expected_by_taker, authority) == Ok::<
            ExchangeAccountsView,
            ProcessError,
        >(v),
    ensures
        amount_expected_by_taker == a.pdas_temp_token_account.amount,
        spec_decode(a.escrow_account_data) is Some,
        v.initializers_token_to_receive_account.amount
            == a.initializers_token_to_receive_account.amount + spec_decode(
            a.escrow_account_data,
        ).unwrap().expected_amount,
        v.takers_sending_token_account.amount == a.takers_sending_token_account.amount
            - spec_decode(a.escrow_account_data).unwrap().expected_amount,
        v.takers_token_to_receive_account.amount == a.takers_token_to_receive_account.amount
            + a.pdas_temp_token_account.amount,
        v.pdas_temp_token_account.amount == 0,
        v.pdas_temp_token_account.lamports == 0,
        v.escrow_account_data.len() == 0,
        v.escrow_account_lamports == 0,
        v.initializers_main_lamports == a.initializers_main_lamports
            + a.pdas_temp_token_account.lamports + a.escrow_account_lamports,
{
}

/// A trade pays out what its initiation demanded: settling a ledger
/// entry that an initiation demanding `amount` wrote grows the
/// initiator's receive account by exactly `amount`.
pub proof fn lemma_trade_pays_demanded_amount(
    ia: InitAccountsView,
    amount: u64,
    init_authority: Seq<u8>,
    iv: InitAccountsView,
    ea: ExchangeAccountsView,
    amount_expected_by_taker: u64,
    settle_authority: Seq<u8>,
    v: ExchangeAccountsView,
)
    requires
        ia.wf(),
        spec_init(ia, amount, init_authority) == Ok::<InitAccountsView, ProcessError>(iv),
        ea.escrow_account_data == iv.escrow_account_data,
        spec_exchange(ea, amount_expected_by_taker, settle_authority) == Ok::<
            ExchangeAccountsView,
            ProcessError,
        >(v),
    ensures
        v.initializers_token_to_receive_account.amount
            == ea.initializers_token_to_receive_account.amount + amount,
        v.takers_sending_token_account.amount == ea.takers_sending_token_account.amount - amount,
{
    lemma_init_custody_and_terms(ia, amount, init_authority, iv);
    lemma_atomic_swap(ea, amount_expected_by_taker, settle_authority, v);
}

/// Mismatch rejection: a settlement whose declared amount differs from
/// the custody account's actual balance fails with
/// `ExpectedAmountMismatch`, and (by the operation's contract) leaves
/// all balances and the ledger entry unchanged.
pub proof fn lemma_mismatch_rejected(
    a: ExchangeAccountsView,
    amount_expected_by_taker: u64,
    authority: Seq<u8>,
)
    requires
        a.taker_is_signer,
        amount_expected_by_taker != a.pdas_temp_token_account.amount,
    ensures
        spec_exchange(a, amount_expected_by_taker, authority) == Err::<
            ExchangeAccountsView,
            ProcessError,
        >(ProcessError::Escrow(EscrowError::ExpectedAmountMismatch)),
{
}

/// Identity-binding rejection: a settlement whose custody account,
/// initiator, or initiator receive account differs from what the ledger
/// entry recorded fails with `InvalidAccountData`, and (by the
/// operation's contract) changes nothing.
pub proof fn lemma_identity_binding_rejected(
    a: ExchangeAccountsView,
    amount_expected_by_taker: u64,
    authority: Seq<u8>,
)
    requires
        a.taker_is_signer,
        amount_expected_by_taker == a.pdas_temp_token_account.amount,
        spec_decode(a.escrow_account_data) is Some,
        spec_decode(a.escrow_account_data).unwrap().is_initialized,
        spec_decode(a.escrow_account_data).unwrap().custody != a.pdas_temp_token_account_key
            || spec_decode(a.escrow_account_data).unwrap().initializer
            != a.initializers_main_account_key || spec_decode(
            a.escrow_account_data,
        ).unwrap().receive != a.initializers_token_to_receive_account_key,
    ensures
        spec_exchange(a, amount_expected_by_taker, authority) == Err::<
            ExchangeAccountsView,
            ProcessError,
        >(ProcessError::Escrow(EscrowError::InvalidAccountData)),
{
}

} // verus!

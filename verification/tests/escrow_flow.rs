//! The full trade flow and its rejection paths, on the modeled accounts.

use escrow::authority::derive_trade_authority;
use escrow::error::{EscrowError, ProcessError, TokenError};
use escrow::identity::Identity;
use escrow::processor::{EscrowAccounts, ExchangeAccounts, InitAccounts, Processor};
use escrow::state::Escrow;
use escrow::token::TokenAccount;

fn id(b: u8) -> Identity {
    Identity::from_bytes([b; 32])
}

fn program_id() -> Identity {
    id(9)
}

fn init_accounts() -> InitAccounts {
    InitAccounts {
        initializer: id(1),
        initializer_is_signer: true,
        temp_token_account_key: id(4),
        temp_token_account: TokenAccount { owner: id(1), amount: 100, lamports: 2_000_000 },
        token_to_receive_account_key: id(3),
        token_to_receive_account_owner: escrow::authority::token_interface_id(),
        escrow_account_lamports: 1_000_000_000,
        escrow_account_data: vec![0u8; 105],
        rent_is_exempt: true,
    }
}

fn initialized_entry_data() -> Vec<u8> {
    let mut accounts = init_accounts();
    Processor::process_init_escrow(&mut accounts, 1000, &program_id()).unwrap();
    accounts.escrow_account_data
}

fn exchange_accounts() -> ExchangeAccounts {
    let (authority, _bump) = derive_trade_authority(&program_id()).unwrap();
    ExchangeAccounts {
        taker: id(2),
        taker_is_signer: true,
        takers_sending_token_account: TokenAccount { owner: id(2), amount: 1000, lamports: 0 },
        takers_token_to_receive_account: TokenAccount { owner: id(2), amount: 0, lamports: 0 },
        pdas_temp_token_account_key: id(4),
        pdas_temp_token_account: TokenAccount { owner: authority, amount: 100, lamports: 2_000_000 },
        initializers_main_account_key: id(1),
        initializers_main_lamports: 500,
        initializers_token_to_receive_account_key: id(3),
        initializers_token_to_receive_account: TokenAccount { owner: id(1), amount: 0, lamports: 0 },
        escrow_account_lamports: 1_000_000_000,
        escrow_account_data: initialized_entry_data(),
    }
}

#[test]
fn test_escrow_success() {
    // The initiator deposits 100 units into custody, demanding 1000 of
    // the counter asset; the counterparty supplies exactly 1000.
    let mut accounts = init_accounts();
    Processor::process_init_escrow(&mut accounts, 1000, &program_id()).unwrap();

    let (authority, _bump) = derive_trade_authority(&program_id()).unwrap();
    assert_eq!(accounts.temp_token_account.owner, authority);
    assert_eq!(accounts.temp_token_account.amount, 100);

    let entry = Escrow::unpack(accounts.escrow_account_data.as_slice()).unwrap();
    assert!(entry.is_initialized);
    assert_eq!(entry.initializer_pubkey, id(1));
    assert_eq!(entry.temp_token_account_pubkey, id(4));
    assert_eq!(entry.initializer_token_to_receive_account_pubkey, id(3));
    assert_eq!(entry.expected_amount, 1000);

    let mut trade = exchange_accounts();
    Processor::process_exchange(&mut trade, 100, &program_id()).unwrap();
    assert_eq!(trade.initializers_token_to_receive_account.amount, 1000);
    assert_eq!(trade.takers_sending_token_account.amount, 0);
    assert_eq!(trade.takers_token_to_receive_account.amount, 100);
    assert_eq!(trade.pdas_temp_token_account.amount, 0);
    assert_eq!(trade.pdas_temp_token_account.lamports, 0);
    assert_eq!(trade.escrow_account_lamports, 0);
    assert!(trade.escrow_account_data.is_empty());
    assert_eq!(trade.initializers_main_lamports, 500 + 2_000_000 + 1_000_000_000);
}

#[test]
fn process_dispatches_by_tag() {
    let mut payload = vec![0u8];
    payload.extend_from_slice(&1000u64.to_le_bytes());
    let mut accounts = EscrowAccounts::ForInit(init_accounts());
    Processor::process(&program_id(), &mut accounts, &payload).unwrap();
    match accounts {
        EscrowAccounts::ForInit(a) => {
            let entry = Escrow::unpack(a.escrow_account_data.as_slice()).unwrap();
            assert_eq!(entry.expected_amount, 1000);
        }
        EscrowAccounts::ForExchange(_) => panic!("wrong account set"),
    }

    let mut settle = vec![1u8];
    settle.extend_from_slice(&100u64.to_le_bytes());
    let mut accounts = EscrowAccounts::ForExchange(exchange_accounts());
    Processor::process(&program_id(), &mut accounts, &settle).unwrap();

    let r = Processor::process(&program_id(), &mut accounts, &[7u8]);
    assert_eq!(r, Err(ProcessError::Escrow(EscrowError::InvalidInstruction)));
}

#[test]
fn process_rejects_mismatched_account_set() {
    let mut payload = vec![0u8];
    payload.extend_from_slice(&1000u64.to_le_bytes());
    let mut accounts = EscrowAccounts::ForExchange(exchange_accounts());
    let r = Processor::process(&program_id(), &mut accounts, &payload);
    assert_eq!(r, Err(ProcessError::Escrow(EscrowError::InvalidAccountData)));
}

#[test]
fn init_requires_signature() {
    let mut accounts = init_accounts();
    accounts.initializer_is_signer = false;
    let r = Processor::process_init_escrow(&mut accounts, 1000, &program_id());
    assert_eq!(r, Err(ProcessError::Escrow(EscrowError::MissingRequiredSignature)));
    assert_eq!(accounts.escrow_account_data, vec![0u8; 105]);
}

#[test]
fn init_requires_token_interface_ownership() {
    let mut accounts = init_accounts();
    accounts.token_to_receive_account_owner = id(8);
    let r = Processor::process_init_escrow(&mut accounts, 1000, &program_id());
    assert_eq!(r, Err(ProcessError::Escrow(EscrowError::IncorrectProgramId)));
}

#[test]
fn init_requires_rent_exemption() {
    let mut accounts = init_accounts();
    accounts.rent_is_exempt = false;
    let r = Processor::process_init_escrow(&mut accounts, 1000, &program_id());
    assert_eq!(r, Err(ProcessError::Escrow(EscrowError::NotRentExempt)));
}

#[test]
fn init_rejects_malformed_entry_buffer() {
    let mut accounts = init_accounts();
    accounts.escrow_account_data = vec![0u8; 50];
    let r = Processor::process_init_escrow(&mut accounts, 1000, &program_id());
    assert_eq!(r, Err(ProcessError::Escrow(EscrowError::InvalidAccountData)));
}

#[test]
fn init_rejects_foreign_custody_account() {
    // The custody account's authority is not the initiator, so the token
    // interface refuses the authority change.
    let mut accounts = init_accounts();
    accounts.temp_token_account.owner = id(7);
    let r = Processor::process_init_escrow(&mut accounts, 1000, &program_id());
    assert_eq!(r, Err(ProcessError::Token(TokenError::OwnerMismatch)));
    assert_eq!(accounts.escrow_account_data, vec![0u8; 105]);
}

#[test]
fn no_double_initialization() {
    let mut accounts = init_accounts();
    Processor::process_init_escrow(&mut accounts, 1000, &program_id()).unwrap();
    let first_data = accounts.escrow_account_data.clone();
    let r = Processor::process_init_escrow(&mut accounts, 500, &program_id());
    assert_eq!(r, Err(ProcessError::Escrow(EscrowError::AccountAlreadyInitialized)));
    assert_eq!(accounts.escrow_account_data, first_data);
    assert_eq!(accounts.temp_token_account.amount, 100);
}

#[test]
fn exchange_requires_signature() {
    let mut trade = exchange_accounts();
    trade.taker_is_signer = false;
    let r = Processor::process_exchange(&mut trade, 100, &program_id());
    assert_eq!(r, Err(ProcessError::Escrow(EscrowError::MissingRequiredSignature)));
}

#[test]
fn exchange_rejects_amount_mismatch() {
    let mut trade = exchange_accounts();
    let before = trade.initializers_token_to_receive_account.amount;
    let r = Processor::process_exchange(&mut trade, 99, &program_id());
    assert_eq!(r, Err(ProcessError::Escrow(EscrowError::ExpectedAmountMismatch)));
    assert_eq!(trade.initializers_token_to_receive_account.amount, before);
    assert_eq!(trade.takers_sending_token_account.amount, 1000);
    assert!(!trade.escrow_account_data.is_empty());
}

#[test]
fn exchange_rejects_wrong_custody_account() {
    let mut trade = exchange_accounts();
    trade.pdas_temp_token_account_key = id(40);
    let r = Processor::process_exchange(&mut trade, 100, &program_id());
    assert_eq!(r, Err(ProcessError::Escrow(EscrowError::InvalidAccountData)));
    assert_eq!(trade.takers_sending_token_account.amount, 1000);
}

#[test]
fn exchange_rejects_wrong_initiator() {
    let mut trade = exchange_accounts();
    trade.initializers_main_account_key = id(41);
    let r = Processor::process_exchange(&mut trade, 100, &program_id());
    assert_eq!(r, Err(ProcessError::Escrow(EscrowError::InvalidAccountData)));
}

#[test]
fn exchange_rejects_wrong_receive_account() {
    let mut trade = exchange_accounts();
    trade.initializers_token_to_receive_account_key = id(42);
    let r = Processor::process_exchange(&mut trade, 100, &program_id());
    assert_eq!(r, Err(ProcessError::Escrow(EscrowError::InvalidAccountData)));
}

#[test]
fn exchange_rejects_uninitialized_entry() {
    let mut trade = exchange_accounts();
    trade.escrow_account_data = vec![0u8; 105];
    let r = Processor::process_exchange(&mut trade, 100, &program_id());
    assert_eq!(r, Err(ProcessError::Escrow(EscrowError::InvalidAccountData)));
}

#[test]
fn exchange_rejects_underfunded_counterparty() {
    let mut trade = exchange_accounts();
    trade.takers_sending_token_account.amount = 999;
    let r = Processor::process_exchange(&mut trade, 100, &program_id());
    assert_eq!(r, Err(ProcessError::Token(TokenError::InsufficientFunds)));
    assert_eq!(trade.takers_sending_token_account.amount, 999);
    assert_eq!(trade.pdas_temp_token_account.amount, 100);
}

#[test]
fn exchange_rejects_counterparty_without_authority() {
    let mut trade = exchange_accounts();
    trade.takers_sending_token_account.owner = id(50);
    let r = Processor::process_exchange(&mut trade, 100, &program_id());
    assert_eq!(r, Err(ProcessError::Token(TokenError::OwnerMismatch)));
}

#[test]
fn exchange_rejects_custody_not_held_by_authority() {
    let mut trade = exchange_accounts();
    trade.pdas_temp_token_account.owner = id(51);
    let r = Processor::process_exchange(&mut trade, 100, &program_id());
    assert_eq!(r, Err(ProcessError::Token(TokenError::OwnerMismatch)));
}

#[test]
fn exchange_rejects_receive_balance_overflow() {
    let mut trade = exchange_accounts();
    trade.initializers_token_to_receive_account.amount = u64::MAX - 999;
    let r = Processor::process_exchange(&mut trade, 100, &program_id());
    assert_eq!(r, Err(ProcessError::Token(TokenError::Overflow)));
}

#[test]
fn exchange_rejects_lamport_consolidation_overflow() {
    let mut trade = exchange_accounts();
    trade.initializers_main_lamports = u64::MAX - 1_000_000;
    let r = Processor::process_exchange(&mut trade, 100, &program_id());
    assert_eq!(r, Err(ProcessError::Token(TokenError::Overflow)));

    // The custody account's rent fits, but adding the entry's rent
    // overflows: the program's own consolidation error.
    let mut trade = exchange_accounts();
    trade.initializers_main_lamports = u64::MAX - 2_000_000 - 999_999_999;
    let r = Processor::process_exchange(&mut trade, 100, &program_id());
    assert_eq!(r, Err(ProcessError::Escrow(EscrowError::AmountOverflow)));
}

//! The two escrow operations over the accounts the host hands them.
//!
//! The host runtime delivers each operation the accounts it names,
//! already read: their identities, signer flags, balances and stored
//! bytes. The functions here validate the request against that state and
//! either apply the operation's full effect or leave every account
//! untouched — the all-or-nothing envelope the host guarantees around a
//! transaction, supplied here by checking every step before the first
//! write.

use vstd::prelude::*;
use crate::authority::{
    derive_trade_authority, spec_authority_seed, spec_derived_authority, spec_token_interface_id,
    token_interface_id,
};
use crate::error::{EscrowError, ProcessError};
use crate::identity::Identity;
use crate::instruction::{spec_unpack_instruction, EscrowInstruction};
use crate::state::{spec_decode, spec_encode, EntryView, Escrow};
use crate::token::{
    spec_close_error, spec_set_authority_error, spec_transfer_error, TokenAccount,
    TokenAccountView,
};

verus! {

/// The accounts a Trade Initiation names, as the host delivers them.
pub struct InitAccounts {
    /// The depositing party.
    pub initializer: Identity,
    /// Whether the initiator cryptographically signed the request.
    pub initializer_is_signer: bool,
    /// The address of the custody account that already holds the deposit.
    pub temp_token_account_key: Identity,
    /// The custody account's state; its authority must still be the
    /// initiator.
    pub temp_token_account: TokenAccount,
    /// The address of the account the initiator wants the counter asset in.
    pub token_to_receive_account_key: Identity,
    /// The program that manages the receive account; it must be the
    /// recognized token interface.
    pub token_to_receive_account_owner: Identity,
    /// The ledger-entry account's storage-rent balance.
    pub escrow_account_lamports: u64,
    /// The ledger-entry account's stored bytes.
    pub escrow_account_data: Vec<u8>,
    /// The rent oracle's verdict on whether `escrow_account_lamports`
    /// meets the retention threshold for the entry's data size.
    pub rent_is_exempt: bool,
}

/// The mathematical content of the initiation accounts.
pub struct InitAccountsView {
    pub initializer: Seq<u8>,
    pub initializer_is_signer: bool,
    pub temp_token_account_key: Seq<u8>,
    pub temp_token_account: TokenAccountView,
    pub token_to_receive_account_key: Seq<u8>,
    pub token_to_receive_account_owner: Seq<u8>,
    pub escrow_account_lamports: u64,
    pub escrow_account_data: Seq<u8>,
    pub rent_is_exempt: bool,
}

impl InitAccountsView {
    /// Every identity carries its full 32 bytes; true of every value the
    /// executable account type can take.
    pub open spec fn wf(self) -> bool {
        self.initializer.len() == 32 && self.temp_token_account_key.len() == 32
            && self.token_to_receive_account_key.len() == 32
    }
}

impl View for InitAccounts {
    type V = InitAccountsView;

    open spec fn view(&self) -> InitAccountsView {
        InitAccountsView {
            initializer: self.initializer@,
            initializer_is_signer: self.initializer_is_signer,
            temp_token_account_key: self.temp_token_account_key@,
            temp_token_account: self.temp_token_account@,
            token_to_receive_account_key: self.token_to_receive_account_key@,
            token_to_receive_account_owner: self.token_to_receive_account_owner@,
            escrow_account_lamports: self.escrow_account_lamports,
            escrow_account_data: self.escrow_account_data@,
            rent_is_exempt: self.rent_is_exempt,
        }
    }
}

/// The accounts a Trade Settlement names, as the host delivers them.
pub struct ExchangeAccounts {
    /// The counterparty taking the trade.
    pub taker: Identity,
    /// Whether the counterparty cryptographically signed the request.
    pub taker_is_signer: bool,
    /// The account the counterparty pays the demanded amount from.
    pub takers_sending_token_account: TokenAccount,
    /// The account the counterparty receives the deposit into.
    pub takers_token_to_receive_account: TokenAccount,
    /// The address of the custody account holding the deposit.
    pub pdas_temp_token_account_key: Identity,
    /// The custody account's state.
    pub pdas_temp_token_account: TokenAccount,
    /// The initiator's own account address.
    pub initializers_main_account_key: Identity,
    /// The initiator's own storage-rent balance, credited with every
    /// balance the settlement reclaims.
    pub initializers_main_lamports: u64,
    /// The address of the initiator's receive account.
    pub initializers_token_to_receive_account_key: Identity,
    /// The initiator's receive account's state.
    pub initializers_token_to_receive_account: TokenAccount,
    /// The ledger-entry account's storage-rent balance.
    pub escrow_account_lamports: u64,
    /// The ledger-entry account's stored bytes.
    pub escrow_account_data: Vec<u8>,
}

/// The mathematical content of the settlement accounts.
pub struct ExchangeAccountsView {
    pub taker: Seq<u8>,
    pub taker_is_signer: bool,
    pub takers_sending_token_account: TokenAccountView,
    pub takers_token_to_receive_account: TokenAccountView,
    pub pdas_temp_token_account_key: Seq<u8>,
    pub pdas_temp_token_account: TokenAccountView,
    pub initializers_main_account_key: Seq<u8>,
    pub initializers_main_lamports: u64,
    pub initializers_token_to_receive_account_key: Seq<u8>,
    pub initializers_token_to_receive_account: TokenAccountView,
    pub escrow_account_lamports: u64,
    pub escrow_account_data: Seq<u8>,
}

impl View for ExchangeAccounts {
    type V = ExchangeAccountsView;

    open spec fn view(&self) -> ExchangeAccountsView {
        ExchangeAccountsView {
            taker: self.taker@,
            taker_is_signer: self.taker_is_signer,
            takers_sending_token_account: self.takers_sending_token_account@,
            takers_token_to_receive_account: self.takers_token_to_receive_account@,
            pdas_temp_token_account_key: self.pdas_temp_token_account_key@,
            pdas_temp_token_account: self.pdas_temp_token_account@,
            initializers_main_account_key: self.initializers_main_account_key@,
            initializers_main_lamports: self.initializers_main_lamports,
            initializers_token_to_receive_account_key: self.initializers_token_to_receive_account_key@,
            initializers_token_to_receive_account: self.initializers_token_to_receive_account@,
            escrow_account_lamports: self.escrow_account_lamports,
            escrow_account_data: self.escrow_account_data@,
        }
    }
}

/// What a Trade Initiation does: the first failed validation, in the
/// order the preconditions are stated, or the new account state.
///
/// On success the ledger entry records exactly the supplied identities
/// and amount, and the custody account's authority becomes `authority`;
/// nothing else changes.
pub open spec fn spec_init(a: InitAccountsView, amount: u64, authority: Seq<u8>) -> Result<
    InitAccountsView,
    ProcessError,
> {
    if !a.initializer_is_signer {
        Err(ProcessError::Escrow(EscrowError::MissingRequiredSignature))
    } else if a.token_to_receive_account_owner != spec_token_interface_id() {
        Err(ProcessError::Escrow(EscrowError::IncorrectProgramId))
    } else if !a.rent_is_exempt {
        Err(ProcessError::Escrow(EscrowError::NotRentExempt))
    } else {
        match spec_decode(a.escrow_account_data) {
            None => Err(ProcessError::Escrow(EscrowError::InvalidAccountData)),
            Some(entry) => {
                if entry.is_initialized {
                    Err(ProcessError::Escrow(EscrowError::AccountAlreadyInitialized))
                } else {
                    match spec_set_authority_error(a.temp_token_account, a.initializer) {
                        Some(te) => Err(ProcessError::Token(te)),
                        None => Ok(
                            InitAccountsView {
                                temp_token_account: TokenAccountView {
                                    owner: authority,
                                    ..a.temp_token_account
                                },
                                escrow_account_data: spec_encode(
                                    EntryView {
                                        is_initialized: true,
                                        initializer: a.initializer,
                                        custody: a.temp_token_account_key,
                                        receive: a.token_to_receive_account_key,
                                        expected_amount: amount,
                                    },
                                ),
                                ..a
                            },
                        ),
                    }
                }
            },
        }
    }
}

/// What a Trade Settlement does: the first failed validation, in the
/// order the original checks run, or the new account state.
///
/// On success the counterparty has paid the demanded amount into the
/// initiator's receive account, the whole custody balance has moved to
/// the counterparty's receive account, and the custody account and the
/// ledger entry are gone, their storage-rent balances credited to the
/// initiator.
pub open spec fn spec_exchange(
    a: ExchangeAccountsView,
    amount_expected_by_taker: u64,
    authority: Seq<u8>,
) -> Result<ExchangeAccountsView, ProcessError> {
    if !a.taker_is_signer {
        Err(ProcessError::Escrow(EscrowError::MissingRequiredSignature))
    } else if amount_expected_by_taker != a.pdas_temp_token_account.amount {
        Err(ProcessError::Escrow(EscrowError::ExpectedAmountMismatch))
    } else {
        match spec_decode(a.escrow_account_data) {
            None => Err(ProcessError::Escrow(EscrowError::InvalidAccountData)),
            Some(entry) => {
                if !entry.is_initialized {
                    Err(ProcessError::Escrow(EscrowError::InvalidAccountData))
                } else if entry.custody != a.pdas_temp_token_account_key {
                    Err(ProcessError::Escrow(EscrowError::InvalidAccountData))
                } else if entry.initializer != a.initializers_main_account_key {
                    Err(ProcessError::Escrow(EscrowError::InvalidAccountData))
                } else if entry.receive != a.initializers_token_to_receive_account_key {
                    Err(ProcessError::Escrow(EscrowError::InvalidAccountData))
                } else {
                    spec_exchange_transfers(a, entry, authority)
                }
            },
        }
    }
}

/// The settlement's transfer legs, after every identity check has
/// passed: the first leg the token interface would reject decides the
/// error, else all four steps take effect at once.
pub open spec fn spec_exchange_transfers(
    a: ExchangeAccountsView,
    entry: EntryView,
    authority: Seq<u8>,
) -> Result<ExchangeAccountsView, ProcessError> {
    match spec_transfer_error(
        a.takers_sending_token_account,
        a.initializers_token_to_receive_account,
        entry.expected_amount,
        a.taker,
    ) {
        Some(te) => Err(ProcessError::Token(te)),
        None => {
            match spec_transfer_error(
                a.pdas_temp_token_account,
                a.takers_token_to_receive_account,
                a.pdas_temp_token_account.amount,
                authority,
            ) {
                Some(te) => Err(ProcessError::Token(te)),
                None => {
                    let custody_emptied = TokenAccountView {
                        amount: 0,
                        ..a.pdas_temp_token_account
                    };
                    match spec_close_error(custody_emptied, a.initializers_main_lamports, authority) {
                        Some(te) => Err(ProcessError::Token(te)),
                        None => {
                            let reclaimed = (a.initializers_main_lamports
                                + a.pdas_temp_token_account.lamports) as u64;
                            if reclaimed + a.escrow_account_lamports > u64::MAX {
                                Err(ProcessError::Escrow(EscrowError::AmountOverflow))
                            } else {
                                Ok(
                                    ExchangeAccountsView {
                                        takers_sending_token_account: TokenAccountView {
                                            amount: (a.takers_sending_token_account.amount
                                                - entry.expected_amount) as u64,
                                            ..a.takers_sending_token_account
                                        },
                                        initializers_token_to_receive_account: TokenAccountView {
                                            amount: (a.initializers_token_to_receive_account.amount
                                                + entry.expected_amount) as u64,
                                            ..a.initializers_token_to_receive_account
                                        },
                                        takers_token_to_receive_account: TokenAccountView {
                                            amount: (a.takers_token_to_receive_account.amount
                                                + a.pdas_temp_token_account.amount) as u64,
                                            ..a.takers_token_to_receive_account
                                        },
                                        pdas_temp_token_account: TokenAccountView {
                                            amount: 0,
                                            lamports: 0,
                                            ..a.pdas_temp_token_account
                                        },
                                        initializers_main_lamports: (reclaimed
                                            + a.escrow_account_lamports) as u64,
                                        escrow_account_lamports: 0,
                                        escrow_account_data: Seq::empty(),
                                        ..a
                                    },
                                )
                            }
                        },
                    }
                },
            }
        },
    }
}

/// Validates an initiation against the derived custody `authority` and
/// either applies it in full or changes nothing.
pub fn initialize_trade(accounts: &mut InitAccounts, amount: u64, authority: &Identity) -> (r:
    Result<(), ProcessError>)
    ensures
        match spec_init(old(accounts)@, amount, authority@) {
            Ok(v) => r is Ok && final(accounts)@ == v,
            Err(e) => r == Err::<(), ProcessError>(e) && final(accounts)@ == old(accounts)@,
        },
{
    if !accounts.initializer_is_signer {
        return Err(ProcessError::Escrow(EscrowError::MissingRequiredSignature));
    }
    let token_program = token_interface_id();
    if !(accounts.token_to_receive_account_owner == token_program) {
        return Err(ProcessError::Escrow(EscrowError::IncorrectProgramId));
    }
    if !accounts.rent_is_exempt {
        return Err(ProcessError::Escrow(EscrowError::NotRentExempt));
    }
    let entry = match Escrow::unpack_unchecked(accounts.escrow_account_data.as_slice()) {
        Ok(e) => e,
        Err(e) => {
            return Err(ProcessError::Escrow(e));
        },
    };
    if entry.is_initialized {
        return Err(ProcessError::Escrow(EscrowError::AccountAlreadyInitialized));
    }
    let initializer = accounts.initializer;
    match crate::token::set_authority(&mut accounts.temp_token_account, authority, &initializer) {
        Ok(_) => {},
        Err(te) => {
            return Err(ProcessError::Token(te));
        },
    }
    let new_entry = Escrow {
        is_initialized: true,
        initializer_pubkey: accounts.initializer,
        temp_token_account_pubkey: accounts.temp_token_account_key,
        initializer_token_to_receive_account_pubkey: accounts.token_to_receive_account_key,
        expected_amount: amount,
    };
    accounts.escrow_account_data = new_entry.pack();
    Ok(())
}

/// Validates a settlement against the derived custody `authority` and
/// either applies all four steps or changes nothing.
pub fn settle_trade(
    accounts: &mut ExchangeAccounts,
    amount_expected_by_taker: u64,
    authority: &Identity,
) -> (r: Result<(), ProcessError>)
    ensures
        match spec_exchange(old(accounts)@, amount_expected_by_taker, authority@) {
            Ok(v) => r is Ok && final(accounts)@ == v,
            Err(e) => r == Err::<(), ProcessError>(e) && final(accounts)@ == old(accounts)@,
        },
{
    if !accounts.taker_is_signer {
        return Err(ProcessError::Escrow(EscrowError::MissingRequiredSignature));
    }
    if amount_expected_by_taker != accounts.pdas_temp_token_account.amount {
        return Err(ProcessError::Escrow(EscrowError::ExpectedAmountMismatch));
    }
    let entry = match Escrow::unpack(accounts.escrow_account_data.as_slice()) {
        Ok(e) => e,
        Err(e) => {
            return Err(ProcessError::Escrow(e));
        },
    };
    if !(entry.temp_token_account_pubkey == accounts.pdas_temp_token_account_key) {
        return Err(ProcessError::Escrow(EscrowError::InvalidAccountData));
    }
    if !(entry.initializer_pubkey == accounts.initializers_main_account_key) {
        return Err(ProcessError::Escrow(EscrowError::InvalidAccountData));
    }
    if !(entry.initializer_token_to_receive_account_pubkey
        == accounts.initializers_token_to_receive_account_key) {
        return Err(ProcessError::Escrow(EscrowError::InvalidAccountData));
    }
    // Stage every transfer's checks before the first write, so that a
    // rejected leg leaves all balances as they were.
    if accounts.takers_sending_token_account.amount < entry.expected_amount {
        return Err(ProcessError::Token(crate::error::TokenError::InsufficientFunds));
    }
    if !(accounts.taker == accounts.takers_sending_token_account.owner) {
        return Err(ProcessError::Token(crate::error::TokenError::OwnerMismatch));
    }
    if accounts.initializers_token_to_receive_account.amount > u64::MAX - entry.expected_amount {
        return Err(ProcessError::Token(crate::error::TokenError::Overflow));
    }
    if !(*authority == accounts.pdas_temp_token_account.owner) {
        return Err(ProcessError::Token(crate::error::TokenError::OwnerMismatch));
    }
    if accounts.takers_token_to_receive_account.amount > u64::MAX
        - accounts.pdas_temp_token_account.amount {
        return Err(ProcessError::Token(crate::error::TokenError::Overflow));
    }
    if accounts.initializers_main_lamports > u64::MAX
        - accounts.pdas_temp_token_account.lamports {
        return Err(ProcessError::Token(crate::error::TokenError::Overflow));
    }
    let reclaimed = accounts.initializers_main_lamports
        + accounts.pdas_temp_token_account.lamports;
    if reclaimed > u64::MAX - accounts.escrow_account_lamports {
        return Err(ProcessError::Escrow(EscrowError::AmountOverflow));
    }
    // Every step is now known to succeed: apply them in the original's
    // order.
    let taker = accounts.taker;
    match crate::token::transfer(
        &mut accounts.takers_sending_token_account,
        &mut accounts.initializers_token_to_receive_account,
        entry.expected_amount,
        &taker,
    ) {
        Ok(_) => {},
        Err(te) => {
            return Err(ProcessError::Token(te));
        },
    }
    let custody_amount = accounts.pdas_temp_token_account.amount;
    match crate::token::transfer(
        &mut accounts.pdas_temp_token_account,
        &mut accounts.takers_token_to_receive_account,
        custody_amount,
        authority,
    ) {
        Ok(_) => {},
        Err(te) => {
            return Err(ProcessError::Token(te));
        },
    }
    match crate::token::close_account(
        &mut accounts.pdas_temp_token_account,
        &mut accounts.initializers_main_lamports,
        authority,
    ) {
        Ok(_) => {},
        Err(te) => {
            return Err(ProcessError::Token(te));
        },
    }
    accounts.initializers_main_lamports = accounts.initializers_main_lamports
        + accounts.escrow_account_lamports;
    accounts.escrow_account_lamports = 0;
    accounts.escrow_account_data = Vec::new();
    Ok(())
}

/// The account set an instruction runs against: the accounts an
/// initiation names, or the accounts a settlement names.
pub enum EscrowAccounts {
    ForInit(InitAccounts),
    ForExchange(ExchangeAccounts),
}

/// The mathematical content of an account set.
pub enum EscrowAccountsView {
    ForInit(InitAccountsView),
    ForExchange(ExchangeAccountsView),
}

impl View for EscrowAccounts {
    type V = EscrowAccountsView;

    open spec fn view(&self) -> EscrowAccountsView {
        match self {
            EscrowAccounts::ForInit(a) => EscrowAccountsView::ForInit(a@),
            EscrowAccounts::ForExchange(a) => EscrowAccountsView::ForExchange(a@),
        }
    }
}

/// What `Processor::process` does: decode the instruction, derive the
/// custody authority for `program`, and run the selected operation over
/// the matching account set; an account set of the wrong shape for the
/// instruction is rejected like any other wrong account.
pub open spec fn spec_process(program: Seq<u8>, a: EscrowAccountsView, data: Seq<u8>) -> Result<
    EscrowAccountsView,
    ProcessError,
> {
    match spec_unpack_instruction(data) {
        None => Err(ProcessError::Escrow(EscrowError::InvalidInstruction)),
        Some(EscrowInstruction::InitEscrow { amount }) => match a {
            EscrowAccountsView::ForInit(ia) => match spec_derived_authority(
                spec_authority_seed(),
                program,
            ) {
                None => Err(ProcessError::AuthorityUnavailable),
                Some(pair) => match spec_init(ia, amount, pair.0) {
                    Ok(v) => Ok(EscrowAccountsView::ForInit(v)),
                    Err(e) => Err(e),
                },
            },
            EscrowAccountsView::ForExchange(_) => Err(
                ProcessError::Escrow(EscrowError::InvalidAccountData),
            ),
        },
        Some(EscrowInstruction::Exchange { amount }) => match a {
            EscrowAccountsView::ForExchange(ea) => match spec_derived_authority(
                spec_authority_seed(),
                program,
            ) {
                None => Err(ProcessError::AuthorityUnavailable),
                Some(pair) => match spec_exchange(ea, amount, pair.0) {
                    Ok(v) => Ok(EscrowAccountsView::ForExchange(v)),
                    Err(e) => Err(e),
                },
            },
            EscrowAccountsView::ForInit(_) => Err(
                ProcessError::Escrow(EscrowError::InvalidAccountData),
            ),
        },
    }
}

/// The escrow program's instruction processor.
pub struct Processor;

impl Processor {
    /// Runs a Trade Initiation: derives the custody authority for this
    /// program's identity, then validates and applies the initiation.
    pub fn process_init_escrow(accounts: &mut InitAccounts, amount: u64, program_id: &Identity)
        -> (r: Result<(), ProcessError>)
        ensures
            match spec_derived_authority(spec_authority_seed(), program_id@) {
                None => r == Err::<(), ProcessError>(ProcessError::AuthorityUnavailable) && final(accounts)@ == old(accounts)@,
                Some(pair) => match spec_init(old(accounts)@, amount, pair.0) {
                    Ok(v) => r is Ok && final(accounts)@ == v,
                    Err(e) => r == Err::<(), ProcessError>(e) && final(accounts)@ == old(accounts)@,
                },
            },
    {
        match derive_trade_authority(program_id) {
            None => Err(ProcessError::AuthorityUnavailable),
            Some((authority, _bump)) => initialize_trade(accounts, amount, &authority),
        }
    }

    /// Runs a Trade Settlement: derives the custody authority for this
    /// program's identity, then validates and applies the settlement.
    pub fn process_exchange(
        accounts: &mut ExchangeAccounts,
        amount_expected_by_taker: u64,
        program_id: &Identity,
    ) -> (r: Result<(), ProcessError>)
        ensures
            match spec_derived_authority(spec_authority_seed(), program_id@) {
                None => r == Err::<(), ProcessError>(ProcessError::AuthorityUnavailable) && final(accounts)@ == old(accounts)@,
                Some(pair) => match spec_exchange(
                    old(accounts)@,
                    amount_expected_by_taker,
                    pair.0,
                ) {
                    Ok(v) => r is Ok && final(accounts)@ == v,
                    Err(e) => r == Err::<(), ProcessError>(e) && final(accounts)@ == old(accounts)@,
                },
            },
    {
        match derive_trade_authority(program_id) {
            None => Err(ProcessError::AuthorityUnavailable),
            Some((authority, _bump)) => settle_trade(accounts, amount_expected_by_taker, &authority),
        }
    }

    /// Decodes an instruction payload and runs the operation it selects
    /// over the supplied account set.
    pub fn process(program_id: &Identity, accounts: &mut EscrowAccounts, instruction_data: &[u8])
        -> (r: Result<(), ProcessError>)
        ensures
            match spec_process(program_id@, old(accounts)@, instruction_data@) {
                Ok(v) => r is Ok && final(accounts)@ == v,
                Err(e) => r == Err::<(), ProcessError>(e) && final(accounts)@ == old(accounts)@,
            },
    {
        let instruction = match EscrowInstruction::unpack(instruction_data) {
            Ok(i) => i,
            Err(e) => {
                return Err(ProcessError::Escrow(e));
            },
        };
        match instruction {
            EscrowInstruction::InitEscrow { amount } => match accounts {
                EscrowAccounts::ForInit(a) => Self::process_init_escrow(a, amount, program_id),
                EscrowAccounts::ForExchange(_) => Err(
                    ProcessError::Escrow(EscrowError::InvalidAccountData),
                ),
            },
            EscrowInstruction::Exchange { amount } => match accounts {
                EscrowAccounts::ForExchange(a) => Self::process_exchange(a, amount, program_id),
                EscrowAccounts::ForInit(_) => Err(
                    ProcessError::Escrow(EscrowError::InvalidAccountData),
                ),
            },
        }
    }
}

} // verus!

//! A separate, simpler program kept beside the escrow: a per-account
//! greeting counter.
//!
//! Its persisted record is a fixed 12-byte little-endian layout: a 4-byte
//! visit counter followed by an 8-byte free-running counter. Each
//! greeting bumps the visit counter by one and adds the instruction's
//! amount to the free-running counter.

use vstd::prelude::*;
use crate::identity::Identity;

verus! {

/// The stored length of a packed greeting record: 4 + 8 bytes.
pub const GREETING_LEN: usize = 12;

/// Errors of the greeting program's own instruction decoding.
#[derive(Clone, Copy, Debug, PartialEq, Eq, Structural)]
pub enum GreetingError {
    /// The instruction payload is malformed or names no known operation.
    InvalidInstruction,
    /// A newly used storage account lacks the minimum balance needed for
    /// permanent retention.
    NotRentExempt,
}

/// Failures of the greeting operation itself.
#[derive(Clone, Copy, Debug, PartialEq, Eq, Structural)]
pub enum GreetingProcessError {
    /// The instruction payload is malformed or names no known operation.
    InvalidInstruction,
    /// The greeted account is not owned by this program.
    IncorrectProgramId,
    /// The greeted account's stored bytes have the wrong length.
    InvalidAccountData,
}

/// The state stored for a greeted account.
#[derive(Clone, Copy, Debug, PartialEq, Eq, Structural)]
pub struct GreetingAccount {
    /// The number of times the account has been greeted.
    pub counter: u32,
    /// The running sum of every greeting's amount.
    pub free_counter: u64,
}

/// The packed form of a greeting record: both counters little-endian.
pub open spec fn spec_encode_greeting(g: GreetingAccount) -> Seq<u8> {
    vstd::bytes::spec_u32_to_le_bytes(g.counter) + vstd::bytes::spec_u64_to_le_bytes(g.free_counter)
}

/// What a 12-byte buffer says, or `None` for any other length.
pub open spec fn spec_decode_greeting(s: Seq<u8>) -> Option<GreetingAccount> {
    if s.len() == GREETING_LEN {
        Some(
            GreetingAccount {
                counter: vstd::bytes::spec_u32_from_le_bytes(s.subrange(0, 4)),
                free_counter: vstd::bytes::spec_u64_from_le_bytes(s.subrange(4, 12)),
            },
        )
    } else {
        None
    }
}

/// Packing a greeting record and unpacking the result yields the
/// identical record.
pub proof fn lemma_greeting_codec_round_trip(g: GreetingAccount)
    ensures
        spec_decode_greeting(spec_encode_greeting(g)) == Some(g),
{
    vstd::bytes::lemma_auto_spec_u32_to_from_le_bytes();
    vstd::bytes::lemma_auto_spec_u64_to_from_le_bytes();
    let s = spec_encode_greeting(g);
    assert(s.subrange(0, 4) =~= vstd::bytes::spec_u32_to_le_bytes(g.counter));
    assert(s.subrange(4, 12) =~= vstd::bytes::spec_u64_to_le_bytes(g.free_counter));
}

impl GreetingAccount {
    /// Reads a greeting record from the first 12 bytes of `src`.
    pub fn unpack_from_slice(src: &[u8]) -> (r: Result<GreetingAccount, GreetingProcessError>)
        requires
            src@.len() == GREETING_LEN,
        ensures
            r == Ok::<GreetingAccount, GreetingProcessError>(
                spec_decode_greeting(src@).unwrap(),
            ),
    {
        let counter_slice = vstd::slice::slice_subrange(src, 0, 4);
        let free_slice = vstd::slice::slice_subrange(src, 4, 12);
        Ok(
            GreetingAccount {
                counter: vstd::bytes::u32_from_le_bytes(counter_slice),
                free_counter: vstd::bytes::u64_from_le_bytes(free_slice),
            },
        )
    }

    /// Writes the record over the first 12 bytes of `dst`.
    pub fn pack_into_slice(&self, dst: &mut Vec<u8>)
        requires
            old(dst)@.len() >= GREETING_LEN,
        ensures
            final(dst)@ == spec_encode_greeting(*self) + old(dst)@.skip(GREETING_LEN as int),
    {
        let counter_bytes = vstd::bytes::u32_to_le_bytes(self.counter);
        let free_bytes = vstd::bytes::u64_to_le_bytes(self.free_counter);
        let mut i: usize = 0;
        while i < 4
            invariant
                i <= 4,
                dst@.len() == old(dst)@.len() >= GREETING_LEN,
                counter_bytes@ == vstd::bytes::spec_u32_to_le_bytes(self.counter),
                counter_bytes@.len() == 4,
                forall|j: int| 0 <= j < i ==> dst@[j] == counter_bytes@[j],
                forall|j: int| i <= j < dst@.len() ==> dst@[j] == old(dst)@[j],
            decreases 4 - i,
        {
            dst[i] = counter_bytes[i];
            i += 1;
        }
        let mut k: usize = 0;
        while k < 8
            invariant
                k <= 8,
                dst@.len() == old(dst)@.len() >= GREETING_LEN,
                counter_bytes@ == vstd::bytes::spec_u32_to_le_bytes(self.counter),
                free_bytes@ == vstd::bytes::spec_u64_to_le_bytes(self.free_counter),
                free_bytes@.len() == 8,
                forall|j: int| 0 <= j < 4 ==> dst@[j] == counter_bytes@[j],
                forall|j: int| 0 <= j < k ==> dst@[4 + j] == free_bytes@[j],
                forall|j: int| 4 + k <= j < dst@.len() ==> dst@[j] == old(dst)@[j],
            decreases 8 - k,
        {
            dst[4 + k] = free_bytes[k];
            k += 1;
        }
        proof {
            assert(dst@ =~= spec_encode_greeting(*self) + old(dst)@.skip(GREETING_LEN as int));
        }
    }
}

/// One decoded instruction for the greeting program.
#[derive(Clone, Copy, Debug, PartialEq, Eq, Structural)]
pub enum GreetingInstruction {
    /// Greets an account, adding `amount` to its free-running counter.
    InitGreeting { amount: u64 },
}

/// What a greeting payload decodes to: tag byte 0 followed by an 8-byte
/// little-endian amount, or `None` for anything else.
pub open spec fn spec_unpack_greeting(input: Seq<u8>) -> Option<GreetingInstruction> {
    if input.len() >= 9 && input[0] == 0u8 {
        Some(
            GreetingInstruction::InitGreeting {
                amount: vstd::bytes::spec_u64_from_le_bytes(input.subrange(1, 9)),
            },
        )
    } else {
        None
    }
}

impl GreetingInstruction {
    /// Decodes an instruction payload, rejecting a malformed or
    /// unrecognized one.
    pub fn unpack(input: &[u8]) -> (r: Result<GreetingInstruction, GreetingError>)
        ensures
            match r {
                Ok(instruction) => spec_unpack_greeting(input@) == Some(instruction),
                Err(e) => spec_unpack_greeting(input@) is None && e
                    == GreetingError::InvalidInstruction,
            },
    {
        if input.len() == 0 {
            return Err(GreetingError::InvalidInstruction);
        }
        let tag = input[0];
        if tag != 0 {
            return Err(GreetingError::InvalidInstruction);
        }
        let rest = vstd::slice::slice_subrange(input, 1, input.len());
        match Self::unpack_amount(rest) {
            Ok(amount) => {
                proof {
                    assert(rest@.subrange(0, 8) =~= input@.subrange(1, 9));
                }
                Ok(GreetingInstruction::InitGreeting { amount })
            },
            Err(e) => Err(e),
        }
    }

    /// Reads the amount argument from the payload's tail.
    pub fn unpack_amount(input: &[u8]) -> (r: Result<u64, GreetingError>)
        ensures
            match r {
                Ok(amount) => input@.len() >= 8 && amount == vstd::bytes::spec_u64_from_le_bytes(
                    input@.subrange(0, 8),
                ),
                Err(e) => input@.len() < 8 && e == GreetingError::InvalidInstruction,
            },
    {
        if input.len() < 8 {
            return Err(GreetingError::InvalidInstruction);
        }
        let amount_slice = vstd::slice::slice_subrange(input, 0, 8);
        Ok(vstd::bytes::u64_from_le_bytes(amount_slice))
    }
}

/// What one greeting does to the greeted account's stored bytes: the
/// visit counter grows by one and the free-running counter by `amount`.
pub open spec fn spec_greet(
    account_owner: Seq<u8>,
    data: Seq<u8>,
    amount: u64,
    program: Seq<u8>,
) -> Result<Seq<u8>, GreetingProcessError>
    recommends
        spec_greet_fits(account_owner, data, amount, program),
{
    if account_owner != program {
        Err(GreetingProcessError::IncorrectProgramId)
    } else {
        match spec_decode_greeting(data) {
            None => Err(GreetingProcessError::InvalidAccountData),
            Some(g) => Ok(
                spec_encode_greeting(
                    GreetingAccount {
                        counter: (g.counter + 1) as u32,
                        free_counter: (g.free_counter + amount) as u64,
                    },
                ),
            ),
        }
    }
}

/// Whether a greeting's two increments stay in range; the stored
/// counters never wrap.
pub open spec fn spec_greet_fits(
    account_owner: Seq<u8>,
    data: Seq<u8>,
    amount: u64,
    program: Seq<u8>,
) -> bool {
    account_owner == program && spec_decode_greeting(data) is Some ==> {
        let g = spec_decode_greeting(data).unwrap();
        g.counter < u32::MAX && g.free_counter + amount <= u64::MAX
    }
}

/// The greeting program's instruction processor.
pub struct Processor;

impl Processor {
    /// Decodes a greeting payload and applies it to the greeted
    /// account's stored bytes.
    pub fn process(
        program_id: &Identity,
        account_owner: &Identity,
        account_data: &mut Vec<u8>,
        instruction_data: &[u8],
    ) -> (r: Result<(), GreetingProcessError>)
        requires
            match spec_unpack_greeting(instruction_data@) {
                Some(GreetingInstruction::InitGreeting { amount }) => spec_greet_fits(
                    account_owner@,
                    old(account_data)@,
                    amount,
                    program_id@,
                ),
                None => true,
            },
        ensures
            match spec_unpack_greeting(instruction_data@) {
                None => r == Err::<(), GreetingProcessError>(
                    GreetingProcessError::InvalidInstruction,
                ) && final(account_data)@ == old(account_data)@,
                Some(GreetingInstruction::InitGreeting { amount }) => match spec_greet(
                    account_owner@,
                    old(account_data)@,
                    amount,
                    program_id@,
                ) {
                    Ok(d) => r is Ok && final(account_data)@ == d,
                    Err(e) => r == Err::<(), GreetingProcessError>(e) && final(account_data)@
                        == old(account_data)@,
                },
            },
    {
        let instruction = match GreetingInstruction::unpack(instruction_data) {
            Ok(i) => i,
            Err(_) => {
                return Err(GreetingProcessError::InvalidInstruction);
            },
        };
        match instruction {
            GreetingInstruction::InitGreeting { amount } => Self::process_greeting(
                program_id,
                account_owner,
                account_data,
                amount,
            ),
        }
    }

    /// Greets an account: bumps its visit counter and adds `amount` to
    /// its free-running counter, in place.
    pub fn process_greeting(
        program_id: &Identity,
        account_owner: &Identity,
        account_data: &mut Vec<u8>,
        amount: u64,
    ) -> (r: Result<(), GreetingProcessError>)
        requires
            spec_greet_fits(account_owner@, old(account_data)@, amount, program_id@),
        ensures
            match spec_greet(account_owner@, old(account_data)@, amount, program_id@) {
                Ok(d) => r is Ok && final(account_data)@ == d,
                Err(e) => r == Err::<(), GreetingProcessError>(e) && final(account_data)@ == old(
                    account_data,
                )@,
            },
    {
        if !(account_owner == program_id) {
            return Err(GreetingProcessError::IncorrectProgramId);
        }
        if account_data.len() != GREETING_LEN {
            return Err(GreetingProcessError::InvalidAccountData);
        }
        let greeting = match GreetingAccount::unpack_from_slice(account_data.as_slice()) {
            Ok(g) => g,
            Err(e) => {
                return Err(e);
            },
        };
        let updated = GreetingAccount {
            counter: greeting.counter + 1,
            free_counter: greeting.free_counter + amount,
        };
        updated.pack_into_slice(account_data);
        proof {
            assert(account_data@ =~= spec_encode_greeting(updated));
        }
        Ok(())
    }
}

} // verus!

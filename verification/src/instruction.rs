//! The instruction payloads the program accepts, and their decoding.
//!
//! A payload is a leading discriminant byte followed by the operation's
//! arguments: 0 starts a trade, 1 settles one, and both carry an 8-byte
//! little-endian amount.

use vstd::prelude::*;
use crate::error::EscrowError;

verus! {

/// One decoded instruction for the escrow program.
#[derive(Clone, Copy, Debug, PartialEq, Eq, Structural)]
pub enum EscrowInstruction {
    /// Starts a trade: the initiator demands `amount` of the counter
    /// asset for the deposit already placed in custody.
    InitEscrow { amount: u64 },
    /// Settles a trade: the counterparty declares the `amount` of the
    /// deposited asset it expects to receive from custody.
    Exchange { amount: u64 },
}

/// The amount argument carried by a payload's tail: its first 8 bytes,
/// little-endian, or `None` where fewer than 8 bytes follow the tag.
pub open spec fn spec_unpack_amount(rest: Seq<u8>) -> Option<u64> {
    if rest.len() >= 8 {
        Some(vstd::bytes::spec_u64_from_le_bytes(rest.subrange(0, 8)))
    } else {
        None
    }
}

/// What a full payload decodes to: the instruction its leading byte
/// selects, or `None` for an empty payload, an unknown tag, or a
/// truncated amount.
pub open spec fn spec_unpack_instruction(input: Seq<u8>) -> Option<EscrowInstruction> {
    if input.len() == 0 {
        None
    } else if input[0] == 0u8 {
        match spec_unpack_amount(input.skip(1)) {
            Some(amount) => Some(EscrowInstruction::InitEscrow { amount }),
            None => None,
        }
    } else if input[0] == 1u8 {
        match spec_unpack_amount(input.skip(1)) {
            Some(amount) => Some(EscrowInstruction::Exchange { amount }),
            None => None,
        }
    } else {
        None
    }
}

impl EscrowInstruction {
    /// Decodes an instruction payload, rejecting a malformed or
    /// unrecognized one.
    pub fn unpack(input: &[u8]) -> (r: Result<EscrowInstruction, EscrowError>)
        ensures
            match r {
                Ok(instruction) => spec_unpack_instruction(input@) == Some(instruction),
                Err(e) => spec_unpack_instruction(input@) is None && e
                    == EscrowError::InvalidInstruction,
            },
    {
        if input.len() == 0 {
            return Err(EscrowError::InvalidInstruction);
        }
        let tag = input[0];
        let rest = vstd::slice::slice_subrange(input, 1, input.len());
        if tag == 0 {
            match Self::unpack_amount(rest) {
                Ok(amount) => Ok(EscrowInstruction::InitEscrow { amount }),
                Err(e) => Err(e),
            }
        } else if tag == 1 {
            match Self::unpack_amount(rest) {
                Ok(amount) => Ok(EscrowInstruction::Exchange { amount }),
                Err(e) => Err(e),
            }
        } else {
            Err(EscrowError::InvalidInstruction)
        }
    }

    /// Reads an operation's amount argument from the payload's tail.
    pub fn unpack_amount(input: &[u8]) -> (r: Result<u64, EscrowError>)
        ensures
            match r {
                Ok(amount) => spec_unpack_amount(input@) == Some(amount),
                Err(e) => spec_unpack_amount(input@) is None && e
                    == EscrowError::InvalidInstruction,
            },
    {
        if input.len() < 8 {
            return Err(EscrowError::InvalidInstruction);
        }
        let amount_slice = vstd::slice::slice_subrange(input, 0, 8);
        Ok(vstd::bytes::u64_from_le_bytes(amount_slice))
    }
}

} // verus!

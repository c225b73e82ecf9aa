//! Derivation of the program's custody-signing authority.
//!
//! The program holds no private key. Instead it derives, from one fixed
//! seed and its own identity, an address that lies off the normal
//! key-generation curve; the host runtime lets the program authorize
//! actions as that address by re-deriving it and presenting the seed with
//! the bump value that made the derivation valid. Every trade shares this
//! one authority: isolation between trades rests on the ledger entry's
//! identity checks, not on authority uniqueness.

use vstd::prelude::*;
use crate::identity::Identity;

verus! {

/// The fixed derivation seed: the six ASCII bytes of the word the
/// program derives every custody authority from.
pub open spec fn spec_authority_seed() -> Seq<u8> {
    seq![101u8, 115u8, 99u8, 114u8, 111u8, 119u8]
}

/// The authority and bump that the host's derivation scheme yields for
/// the given seed and program identity, or `None` where no bump yields a
/// valid (off-curve) address. The result is a function of the two
/// arguments alone.
pub uninterp spec fn spec_derived_authority(seed: Seq<u8>, program: Seq<u8>) -> Option<
    (Seq<u8>, u8),
>;

/// The fixed derivation seed as bytes.
pub fn authority_seed() -> (r: Vec<u8>)
    ensures
        r@ == spec_authority_seed(),
{
    let mut seed: Vec<u8> = Vec::new();
    seed.push(101);
    seed.push(115);
    seed.push(99);
    seed.push(114);
    seed.push(111);
    seed.push(119);
    proof {
        assert(seed@ =~= spec_authority_seed());
    }
    seed
}

/// Relies on `Pubkey::try_find_program_address` (solana-address): the
/// search over bump values is a deterministic function of the seeds and
/// the program identity, and returns `None` only in the statistically
/// improbable case that no bump yields an off-curve address.
#[verifier::external_body]
fn find_authority(seed: &[u8], program_id: &Identity) -> (r: Option<(Identity, u8)>)
    ensures
        match spec_derived_authority(seed@, program_id@) {
            Some(pair) => r is Some && ((r->Some_0.0)@, r->Some_0.1) == pair,
            None => r is None,
        },
{
    let program = solana_program::pubkey::Pubkey::new_from_array(program_id.bytes);
    match solana_program::pubkey::Pubkey::try_find_program_address(&[seed], &program) {
        Some((address, bump)) => Some((Identity { bytes: address.to_bytes() }, bump)),
        None => None,
    }
}

/// Computes the custody authority for this program's identity: the one
/// identity that controls every active trade's custody account, with the
/// bump value that makes the derivation valid.
pub fn derive_trade_authority(program_id: &Identity) -> (r: Option<(Identity, u8)>)
    ensures
        match spec_derived_authority(spec_authority_seed(), program_id@) {
            Some(pair) => r is Some && ((r->Some_0.0)@, r->Some_0.1) == pair,
            None => r is None,
        },
{
    let seed = authority_seed();
    find_authority(seed.as_slice(), program_id)
}

/// The 32 bytes of the fungible-token interface's fixed program identity.
///
/// In base-58 form this is the address
/// `TokenkegQfeZyiNwAJbNbGKPFXCWuBvf9Ss623VQ5DA`.
pub open spec fn spec_token_interface_id() -> Seq<u8> {
    seq![
        6u8, 221u8, 246u8, 225u8, 215u8, 101u8, 161u8, 147u8, 217u8, 203u8, 225u8, 70u8, 206u8,
        235u8, 121u8, 172u8, 28u8, 180u8, 133u8, 237u8, 95u8, 91u8, 55u8, 145u8, 58u8, 140u8,
        245u8, 133u8, 126u8, 255u8, 0u8, 169u8,
    ]
}

/// Relies on `spl_token::id`: the fungible-token interface's program
/// identity is the fixed address `TokenkegQfeZyiNwAJbNbGKPFXCWuBvf9Ss623VQ5DA`,
/// whose 32 raw bytes `spec_token_interface_id` lists.
#[verifier::external_body]
pub fn token_interface_id() -> (r: Identity)
    ensures
        r@ == spec_token_interface_id(),
{
    Identity { bytes: spl_token::id().to_bytes() }
}

} // verus!

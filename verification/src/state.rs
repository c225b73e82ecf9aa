//! The persisted ledger entry of one escrow trade, and its binary codec.
//!
//! An entry is stored as a fixed-width record of 105 bytes, little-endian:
//! a 1-byte initialization flag, three 32-byte identities, and the 8-byte
//! demanded amount.

use vstd::prelude::*;
use crate::error::EscrowError;
use crate::identity::Identity;

verus! {

/// The stored length of a packed ledger entry: 1 + 32 + 32 + 32 + 8 bytes.
pub const ENTRY_LEN: usize = 105;

/// One escrow trade's persisted terms and participants.
#[derive(Clone, Copy, Debug)]
pub struct Escrow {
    /// Distinguishes a live entry from empty or uninitialized storage.
    pub is_initialized: bool,
    /// The depositing party; only this identity's counter-offer is honored
    /// at settlement.
    pub initializer_pubkey: Identity,
    /// The account holding the initiator's deposit in custody.
    pub temp_token_account_pubkey: Identity,
    /// The account into which the initiator expects the counterparty's
    /// funds.
    pub initializer_token_to_receive_account_pubkey: Identity,
    /// The quantity the initiator demands in exchange for the deposit.
    pub expected_amount: u64,
}

/// The mathematical content of a ledger entry: what the 105 stored bytes
/// say, with each identity as its byte sequence.
pub struct EntryView {
    pub is_initialized: bool,
    pub initializer: Seq<u8>,
    pub custody: Seq<u8>,
    pub receive: Seq<u8>,
    pub expected_amount: u64,
}

impl EntryView {
    /// An entry view is well formed when each identity has its full
    /// 32 bytes.
    pub open spec fn wf(self) -> bool {
        self.initializer.len() == 32 && self.custody.len() == 32 && self.receive.len() == 32
    }
}

impl View for Escrow {
    type V = EntryView;

    open spec fn view(&self) -> EntryView {
        EntryView {
            is_initialized: self.is_initialized,
            initializer: self.initializer_pubkey@,
            custody: self.temp_token_account_pubkey@,
            receive: self.initializer_token_to_receive_account_pubkey@,
            expected_amount: self.expected_amount,
        }
    }
}

/// The packed form of an entry view: flag byte, the three identities, and
/// the amount in little-endian order.
pub open spec fn spec_encode(v: EntryView) -> Seq<u8> {
    seq![if v.is_initialized { 1u8 } else { 0u8 }] + v.initializer + v.custody + v.receive
        + vstd::bytes::spec_u64_to_le_bytes(v.expected_amount)
}

/// What a 105-byte buffer says, or `None` where the buffer has the wrong
/// length or a flag byte that is neither 0 nor 1.
pub open spec fn spec_decode(s: Seq<u8>) -> Option<EntryView> {
    if s.len() == ENTRY_LEN && (s[0] == 0u8 || s[0] == 1u8) {
        Some(
            EntryView {
                is_initialized: s[0] == 1u8,
                initializer: s.subrange(1, 33),
                custody: s.subrange(33, 65),
                receive: s.subrange(65, 97),
                expected_amount: vstd::bytes::spec_u64_from_le_bytes(s.subrange(97, 105)),
            },
        )
    } else {
        None
    }
}

/// Packing a ledger entry and unpacking the result yields the identical
/// entry, for every well-formed entry, the demanded amount 0 and
/// `u64::MAX` included.
pub proof fn lemma_codec_round_trip(v: EntryView)
    requires
        v.wf(),
    ensures
        spec_decode(spec_encode(v)) == Some(v),
{
    vstd::bytes::lemma_auto_spec_u64_to_from_le_bytes();
    let s = spec_encode(v);
    assert(s.len() == ENTRY_LEN);
    let d = spec_decode(s).unwrap();
    assert(d.initializer =~= v.initializer);
    assert(d.custody =~= v.custody);
    assert(d.receive =~= v.receive);
    assert(s.subrange(97, 105) =~= vstd::bytes::spec_u64_to_le_bytes(v.expected_amount));
}

/// A stored buffer decodes to at most one entry: decoding, then packing
/// what was decoded, restores the very bytes that were read.
pub proof fn lemma_decode_encode(s: Seq<u8>)
    requires
        spec_decode(s) is Some,
    ensures
        spec_decode(s).unwrap().wf(),
        spec_encode(spec_decode(s).unwrap()) == s,
{
    vstd::bytes::lemma_auto_spec_u64_to_from_le_bytes();
    let v = spec_decode(s).unwrap();
    assert(s.subrange(97, 105).len() == 8);
    assert(spec_encode(v) =~= s);
}

/// Reads 32 bytes of `src` starting at `offset` as an identity.
fn read_identity(src: &[u8], offset: usize) -> (r: Identity)
    requires
        offset + 32 <= src@.len(),
    ensures
        r@ == src@.subrange(offset as int, offset + 32),
{
    let n = src.len();
    let mut bytes = [0u8; 32];
    let mut i: usize = 0;
    while i < 32
        invariant
            i <= 32,
            offset + 32 <= n == src@.len(),
            forall|j: int| 0 <= j < i ==> bytes@[j] == src@[offset + j],
        decreases 32 - i,
    {
        bytes[i] = src[offset + i];
        i += 1;
    }
    proof {
        assert(bytes@ =~= src@.subrange(offset as int, offset + 32));
    }
    Identity { bytes }
}

/// Appends the 32 bytes of `id` to `dst`.
fn write_identity(dst: &mut Vec<u8>, id: &Identity)
    ensures
        final(dst)@ == old(dst)@ + id@,
{
    let mut i: usize = 0;
    while i < 32
        invariant
            i <= 32,
            dst@ == old(dst)@ + id@.subrange(0, i as int),
        decreases 32 - i,
    {
        dst.push(id.bytes[i]);
        proof {
            assert(dst@ =~= old(dst)@ + id@.subrange(0, i + 1));
        }
        i += 1;
    }
    proof {
        assert(id@.subrange(0, 32) =~= id@);
    }
}

impl Escrow {
    /// Serializes the entry into its fixed 105-byte form.
    pub fn pack(&self) -> (r: Vec<u8>)
        ensures
            r@ == spec_encode(self@),
            r@.len() == ENTRY_LEN,
    {
        let mut out: Vec<u8> = Vec::new();
        out.push(if self.is_initialized {
            1u8
        } else {
            0u8
        });
        write_identity(&mut out, &self.initializer_pubkey);
        write_identity(&mut out, &self.temp_token_account_pubkey);
        write_identity(&mut out, &self.initializer_token_to_receive_account_pubkey);
        let mut amount_bytes = vstd::bytes::u64_to_le_bytes(self.expected_amount);
        out.append(&mut amount_bytes);
        proof {
            assert(out@ =~= spec_encode(self@));
        }
        out
    }

    /// Deserializes a stored buffer without demanding a live entry.
    ///
    /// Rejects a buffer of the wrong length, and one whose flag byte is
    /// neither 0 nor 1.
    pub fn unpack_unchecked(src: &[u8]) -> (r: Result<Escrow, EscrowError>)
        ensures
            match r {
                Ok(e) => spec_decode(src@) == Some(e@),
                Err(err) => spec_decode(src@) is None && err == EscrowError::InvalidAccountData,
            },
    {
        if src.len() != ENTRY_LEN {
            return Err(EscrowError::InvalidAccountData);
        }
        let flag = src[0];
        if flag != 0 && flag != 1 {
            return Err(EscrowError::InvalidAccountData);
        }
        let initializer_pubkey = read_identity(src, 1);
        let temp_token_account_pubkey = read_identity(src, 33);
        let initializer_token_to_receive_account_pubkey = read_identity(src, 65);
        let amount_slice = vstd::slice::slice_subrange(src, 97, 105);
        let expected_amount = vstd::bytes::u64_from_le_bytes(amount_slice);
        Ok(
            Escrow {
                is_initialized: flag == 1,
                initializer_pubkey,
                temp_token_account_pubkey,
                initializer_token_to_receive_account_pubkey,
                expected_amount,
            },
        )
    }

    /// Deserializes a stored buffer and demands a live entry.
    ///
    /// Beyond what `unpack_unchecked` rejects, a buffer whose entry is not
    /// initialized is rejected too: settlement has no trade to act on.
    pub fn unpack(src: &[u8]) -> (r: Result<Escrow, EscrowError>)
        ensures
            match r {
                Ok(e) => spec_decode(src@) == Some(e@) && e@.is_initialized,
                Err(err) => (spec_decode(src@) is None || !spec_decode(src@).unwrap().is_initialized)
                    && err == EscrowError::InvalidAccountData,
            },
    {
        match Self::unpack_unchecked(src) {
            Ok(e) => {
                if e.is_initialized {
                    Ok(e)
                } else {
                    Err(EscrowError::InvalidAccountData)
                }
            },
            Err(err) => Err(err),
        }
    }
}

} // verus!

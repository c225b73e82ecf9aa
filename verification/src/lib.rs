//! A verified model of a bilateral token-escrow protocol.
//!
//! One party (the initiator) places a deposit under the custody of a
//! program-derived authority and records the trade's terms in a ledger
//! entry; a counterparty later settles the trade by supplying the demanded
//! amount, which atomically swaps the two deposits and retires the entry.
//!
//! The `processor` module holds the two operations, `state` the ledger
//! entry and its codec, `authority` the derivation of the custody-signing
//! identity, and `laws` the protocol's proved guarantees. The `greeting`
//! and `geometry` modules carry two small unrelated programs kept in the
//! same repository.

pub mod authority;
pub mod error;
pub mod geometry;
pub mod greeting;
pub mod identity;
pub mod instruction;
pub mod laws;
pub mod processor;
pub mod state;
pub mod token;

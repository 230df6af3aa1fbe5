//! Verified core of a multi-party token-escrow ("bounty") program.
//!
//! A bounty pools fungible-token contributions in a custody balance and
//! tracks each contributor's share in a bounded participant ledger. The
//! library models the three operations of the lifecycle — create, join,
//! close — as exact state transitions, together with the arithmetic and
//! authorization invariants that protect custody of the pooled funds.
//! Token transfer, record persistence and address derivation are the
//! caller's collaborators; the library computes every decision and every
//! new state, and says in its contracts exactly which transfer the caller
//! owes on success.

pub mod error;
pub mod state;
pub mod instructions;
pub mod laws;

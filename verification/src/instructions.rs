//! The three operations of the bounty lifecycle, as exact state
//! transitions.

pub mod create_bounty;
pub mod join_bounty;
pub mod close_bounty;

//! The data model of the bounty core.

pub mod bounty;

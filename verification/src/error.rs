//! The error taxonomy of the bounty core.
//!
//! Every failure of an operation aborts that operation with no state
//! change and surfaces one of these kinds to the caller.

use vstd::prelude::*;

verus! {

/// Why an operation on a bounty was refused.
#[derive(Clone, Copy, PartialEq, Eq, Structural, Debug)]
pub enum ErrorCode {
    /// A malformed `bounty_type` or `vote_type` tag, an over-long name or
    /// description, or a zero amount.
    InvalidArgument,
    /// A join was attempted against a `Solo` bounty.
    NotOpenBounty,
    /// A ledger entry for the address is already present (also the refusal
    /// of a close while the participant ledger is non-empty).
    ParticipantAlreadyExists,
    /// No ledger entry for the address is present.
    ParticipantDoesNotExist,
    /// A checked addition on a stored share would wrap.
    ArithmeticOverflow,
    /// A checked subtraction on a stored share would wrap.
    ArithmeticUnderflow,
    /// The participant ledger is at capacity, so a new entry cannot be added.
    InsufficientShares,
    /// The presented signer is not the bounty's recorded authority.
    AuthorizationFailure,
    /// The custody transfer primitive would fail: the source balance is
    /// short of the amount, or the credited balance would wrap.
    TransferFailure,
    /// The stored `bounty_type` tag decodes to no known variant at close
    /// time (defensive; unreachable for records this core created).
    InvalidState,
}

} // verus!

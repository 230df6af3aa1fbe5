//! The close operation: return the custody balance to the authority and
//! retire the record.

use vstd::prelude::*;

use crate::error::ErrorCode;
use crate::state::bounty::{Address, BountyEscrow, BountyEscrowView};

verus! {

/// What the close operation yields, given the authority's token balance:
/// the authority's balance after the full custody refund, or the exact
/// refusal.
///
/// Only the recorded authority may close. A solo bounty closes
/// unconditionally; an open bounty closes only once its participant ledger
/// is empty. A record whose stored tag decodes to no known variant is
/// refused defensively. The refund transfer is atomic and fails if the
/// credited balance would wrap; on any refusal nothing moves and the
/// record stays.
pub open spec fn spec_close_bounty(
    e: BountyEscrowView,
    signer: Address,
    authority_balance: u64,
) -> Result<u64, ErrorCode> {
    if signer != e.bounty.authority {
        Err(ErrorCode::AuthorizationFailure)
    } else if e.bounty.bounty_type == 0 {
        if authority_balance + e.custody > u64::MAX {
            Err(ErrorCode::TransferFailure)
        } else {
            Ok((authority_balance + e.custody) as u64)
        }
    } else if e.bounty.bounty_type == 1 {
        if e.bounty.participants.len() != 0 {
            Err(ErrorCode::ParticipantAlreadyExists)
        } else if authority_balance + e.custody > u64::MAX {
            Err(ErrorCode::TransferFailure)
        } else {
            Ok((authority_balance + e.custody) as u64)
        }
    } else {
        Err(ErrorCode::InvalidState)
    }
}

/// Close a bounty.
///
/// `signer` is the co-signing identity presented to the operation and
/// `authority_balance` the recorded authority's balance of the pooled
/// asset. On success the returned value is that balance after the full
/// custody refund; the caller then owes the one atomic transfer of the
/// whole custody balance — signed by the bounty's own derived identity,
/// not by a human key — back to the authority, and the deletion of the
/// record. On a refusal the record and all balances are untouched, as the
/// borrowed escrow itself shows.
pub fn close_bounty(escrow: &BountyEscrow, signer: &Address, authority_balance: u64) -> (r: Result<
    u64,
    ErrorCode,
>)
    ensures
        r == spec_close_bounty(escrow@, *signer, authority_balance),
        r matches Ok(b) ==> b == authority_balance + escrow@.custody,
{
    if *signer != escrow.bounty.authority {
        return Err(ErrorCode::AuthorizationFailure);
    }
    match escrow.bounty.bounty_type {
        0 => {
            match authority_balance.checked_add(escrow.custody) {
                None => Err(ErrorCode::TransferFailure),
                Some(b) => Ok(b),
            }
        },
        1 => {
            if let Err(e) = escrow.bounty.validate_participants_empty() {
                return Err(e);
            }
            match authority_balance.checked_add(escrow.custody) {
                None => Err(ErrorCode::TransferFailure),
                Some(b) => Ok(b),
            }
        },
        _ => Err(ErrorCode::InvalidState),
    }
}

} // verus!

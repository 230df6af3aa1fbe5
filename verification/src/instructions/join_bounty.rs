//! The join operation: pool a further contribution into an open bounty
//! and track the contributor's share.

use vstd::prelude::*;

use crate::error::ErrorCode;
use crate::state::bounty::{
    addresses_unique, contains_address, first_index_of, lemma_first_index_of, lemma_sum_push,
    lemma_sum_update, spec_add_participant, spec_increase_participant_shares, sum_amounts,
    with_participants, Address, BountyEscrow, BountyEscrowView, Participant, BOUNTY_TYPE_OPEN,
    MAX_PARTICIPANTS,
};

verus! {

/// What the ledger step of a join yields: grow the contributor's entry if
/// one exists, append a fresh one otherwise.
pub open spec fn spec_join_ledger(
    s: Seq<Participant>,
    participant: Address,
    amount: u64,
) -> Result<Seq<Participant>, ErrorCode> {
    if contains_address(s, participant) {
        spec_increase_participant_shares(s, participant, amount)
    } else {
        spec_add_participant(s, participant, amount)
    }
}

/// What the join operation yields, given the contributor's token balance:
/// the contributor's balance after the transfer and the new escrow, or the
/// exact refusal and the escrow unchanged.
///
/// A zero amount is malformed; only an open bounty can be joined; the
/// ledger step is validated before the transfer, so a capacity or
/// arithmetic refusal never moves funds; the transfer itself is atomic and
/// fails if the contributor's balance is short or the credited custody
/// balance would wrap.
pub open spec fn spec_join_bounty(
    e: BountyEscrowView,
    participant: Address,
    amount: u64,
    participant_balance: u64,
) -> (Result<u64, ErrorCode>, BountyEscrowView) {
    if amount == 0 {
        (Err(ErrorCode::InvalidArgument), e)
    } else if !e.bounty.is_open() {
        (Err(ErrorCode::NotOpenBounty), e)
    } else {
        match spec_join_ledger(e.bounty.participants, participant, amount) {
            Err(err) => (Err(err), e),
            Ok(s2) => if participant_balance < amount {
                (Err(ErrorCode::TransferFailure), e)
            } else if e.custody + amount > u64::MAX {
                (Err(ErrorCode::TransferFailure), e)
            } else {
                (
                    Ok((participant_balance - amount) as u64),
                    BountyEscrowView {
                        bounty: with_participants(e.bounty, s2),
                        custody: (e.custody + amount) as u64,
                    },
                )
            },
        }
    }
}

/// Join a bounty.
///
/// `participant` is the co-signing contributor and `participant_balance`
/// its balance of the pooled asset. On success the returned value is that
/// balance after the contribution, the escrow now tracks the contribution
/// in the ledger and in the custody balance, and the caller owes the one
/// atomic transfer of `amount` from the contributor to the custody
/// account; on a refusal the escrow is unchanged and nothing moves.
pub fn join_bounty(
    escrow: &mut BountyEscrow,
    participant: Address,
    amount: u64,
    participant_balance: u64,
) -> (r: Result<u64, ErrorCode>)
    ensures
        r == spec_join_bounty(old(escrow)@, participant, amount, participant_balance).0,
        final(escrow)@ == spec_join_bounty(old(escrow)@, participant, amount, participant_balance).1,
        old(escrow)@.wf() ==> final(escrow)@.wf(),
{
    proof {
        if old(escrow)@.wf() {
            lemma_join_bounty_wf(old(escrow)@, participant, amount, participant_balance);
        }
    }
    if amount == 0 {
        return Err(ErrorCode::InvalidArgument);
    }
    if escrow.bounty.bounty_type != BOUNTY_TYPE_OPEN {
        return Err(ErrorCode::NotOpenBounty);
    }

    proof {
        lemma_first_index_of(escrow@.bounty.participants, participant);
    }

    // The ledger step is computed and validated first: a capacity or
    // arithmetic refusal must surface before any transfer is issued.
    let new_custody: u64;
    match escrow.bounty.participant_index(&participant) {
        Some(i) => {
            let current = escrow.bounty.participants[i].amount;
            if current.checked_add(amount).is_none() {
                return Err(ErrorCode::ArithmeticOverflow);
            }
            if participant_balance < amount {
                return Err(ErrorCode::TransferFailure);
            }
            new_custody = match escrow.custody.checked_add(amount) {
                None => {
                    return Err(ErrorCode::TransferFailure);
                },
                Some(c) => c,
            };
            let r = escrow.bounty.increase_participant_shares(participant, amount);
            proof {
                assert(r is Ok);
            }
        },
        None => {
            if escrow.bounty.participants.len() >= MAX_PARTICIPANTS {
                return Err(ErrorCode::InsufficientShares);
            }
            if participant_balance < amount {
                return Err(ErrorCode::TransferFailure);
            }
            new_custody = match escrow.custody.checked_add(amount) {
                None => {
                    return Err(ErrorCode::TransferFailure);
                },
                Some(c) => c,
            };
            let r = escrow.bounty.add_participant(participant, amount);
            proof {
                assert(r is Ok);
            }
        },
    }
    escrow.custody = new_custody;
    proof {
        assert(escrow@ =~~= spec_join_bounty(
            old(escrow)@,
            participant,
            amount,
            participant_balance,
        ).1);
    }
    Ok(participant_balance - amount)
}

/// A join preserves the escrow invariant: whatever the outcome, a
/// well-formed escrow stays well-formed, and a successful join moves the
/// tracked sum and the custody balance by exactly the joined amount.
pub proof fn lemma_join_bounty_wf(
    e: BountyEscrowView,
    participant: Address,
    amount: u64,
    participant_balance: u64,
)
    requires
        e.wf(),
    ensures
        spec_join_bounty(e, participant, amount, participant_balance).1.wf(),
        spec_join_bounty(e, participant, amount, participant_balance).0 is Ok
            ==> sum_amounts(
            spec_join_bounty(e, participant, amount, participant_balance).1.bounty.participants,
        ) == sum_amounts(e.bounty.participants) + amount
            && spec_join_bounty(e, participant, amount, participant_balance).1.custody
            == e.custody + amount,
        spec_join_bounty(e, participant, amount, participant_balance).0 is Err
            ==> spec_join_bounty(e, participant, amount, participant_balance).1 == e,
{
    let (r, e2) = spec_join_bounty(e, participant, amount, participant_balance);
    lemma_first_index_of(e.bounty.participants, participant);
    if r is Ok {
        let s = e.bounty.participants;
        if contains_address(s, participant) {
            let i = first_index_of(s, participant);
            let p2 = Participant {
                address: participant,
                amount: (s[i].amount + amount) as u64,
            };
            lemma_sum_update(s, i, p2);
            assert(addresses_unique(e2.bounty.participants)) by {
                assert(forall|j: int| 0 <= j < s.len() && j != i
                    ==> e2.bounty.participants[j] == s[j]);
            }
        } else {
            let p2 = Participant { address: participant, amount };
            lemma_sum_push(s, p2);
            assert(addresses_unique(e2.bounty.participants)) by {
                assert(forall|j: int| 0 <= j < s.len() ==> e2.bounty.participants[j] == s[j]);
                assert(forall|j: int| 0 <= j < s.len() ==> s[j].address != participant);
            }
        }
    }
}

} // verus!

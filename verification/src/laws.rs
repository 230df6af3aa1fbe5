//! The guarantees of the bounty lifecycle, stated and proved once over
//! the spec transitions that the operations' contracts pin down.

use vstd::prelude::*;

use crate::error::ErrorCode;
use crate::instructions::close_bounty::spec_close_bounty;
use crate::instructions::create_bounty::spec_create_bounty;
use crate::instructions::join_bounty::{lemma_join_bounty_wf, spec_join_bounty};
use crate::state::bounty::{
    amounts_positive, contains_address, lemma_first_index_of, lemma_sum_push, sum_amounts,
    Address, BountyEscrowView, CreateBountyParamsView, Participant, MAX_DESCRIPTION_LENGTH,
    MAX_NAME_LENGTH, MAX_PARTICIPANTS,
};

verus! {

/// For a decodable bounty type, a positive deposit, and text that fits
/// the record, creation succeeds exactly when the issuer's balance covers
/// the deposit; and then the custody balance equals the deposit, the
/// issuer paid exactly the deposit, and the ledger is empty for a solo
/// bounty and holds only the creator's full share for an open one.
pub proof fn lemma_create_succeeds_iff(
    authority: Address,
    mint: Address,
    payment_mint: Address,
    args: CreateBountyParamsView,
    created_at: i64,
    balance: u64,
)
    requires
        args.bounty_type <= 1,
        args.vote_type <= 1,
        args.amount > 0,
        args.name.len() <= MAX_NAME_LENGTH,
        args.description.len() <= MAX_DESCRIPTION_LENGTH,
    ensures
        spec_create_bounty(authority, mint, payment_mint, args, created_at, balance) is Ok
            <==> balance >= args.amount,
        spec_create_bounty(authority, mint, payment_mint, args, created_at, balance) matches
            Ok(out) ==> out.0.custody == args.amount && out.1 == balance - args.amount
            && (args.bounty_type == 0 ==> out.0.bounty.participants
                == Seq::<Participant>::empty())
            && (args.bounty_type == 1 ==> out.0.bounty.participants
                == seq![Participant { address: authority, amount: args.amount }])
            && out.0.wf(),
{
    if balance >= args.amount {
        let out = spec_create_bounty(authority, mint, payment_mint, args, created_at, balance)
            ->Ok_0;
        if args.bounty_type == 1 {
            lemma_sum_push(
                Seq::empty(),
                Participant { address: authority, amount: args.amount },
            );
            assert(Seq::<Participant>::empty().push(
                Participant { address: authority, amount: args.amount },
            ) =~= out.0.bounty.participants);
        } else {
            assert(out.0.bounty.participants =~= Seq::<Participant>::empty());
        }
    }
}

/// One requested join: the contributor, the contribution, and the
/// contributor's balance of the pooled asset at that moment.
pub ghost struct JoinRequest {
    pub participant: Address,
    pub amount: u64,
    pub balance: u64,
}

/// The escrow after a whole sequence of join requests, applied in order;
/// a refused request leaves the escrow as it was.
pub open spec fn spec_join_all(e: BountyEscrowView, joins: Seq<JoinRequest>) -> BountyEscrowView
    decreases joins.len(),
{
    if joins.len() == 0 {
        e
    } else {
        let e2 = spec_join_bounty(e, joins[0].participant, joins[0].amount, joins[0].balance).1;
        spec_join_all(e2, joins.drop_first())
    }
}

/// The total of the amounts of exactly the requests that succeed when the
/// sequence is applied in order.
pub open spec fn spec_joined_total(e: BountyEscrowView, joins: Seq<JoinRequest>) -> int
    decreases joins.len(),
{
    if joins.len() == 0 {
        0
    } else {
        let (r, e2) = spec_join_bounty(e, joins[0].participant, joins[0].amount, joins[0].balance);
        (if r is Ok {
            joins[0].amount as int
        } else {
            0
        }) + spec_joined_total(e2, joins.drop_first())
    }
}

/// After any sequence of joins on a well-formed escrow, the tracked shares
/// sum to what they summed to before plus every amount that was accepted;
/// no share is zero, the ledger never exceeds its capacity, and the
/// custody balance still accounts for the pool exactly.
pub proof fn lemma_join_sequence(e: BountyEscrowView, joins: Seq<JoinRequest>)
    requires
        e.wf(),
    ensures
        spec_join_all(e, joins).wf(),
        sum_amounts(spec_join_all(e, joins).bounty.participants) == sum_amounts(
            e.bounty.participants,
        ) + spec_joined_total(e, joins),
        spec_join_all(e, joins).bounty.participants.len() <= MAX_PARTICIPANTS,
        amounts_positive(spec_join_all(e, joins).bounty.participants),
    decreases joins.len(),
{
    if joins.len() > 0 {
        let (r, e2) = spec_join_bounty(e, joins[0].participant, joins[0].amount, joins[0].balance);
        lemma_join_bounty_wf(e, joins[0].participant, joins[0].amount, joins[0].balance);
        lemma_join_sequence(e2, joins.drop_first());
    }
}

/// On a full ledger an unknown contributor is refused for want of a free
/// entry, while a contributor who already holds an entry is never refused
/// on capacity, whatever else may go wrong.
pub proof fn lemma_join_capacity(
    e: BountyEscrowView,
    participant: Address,
    amount: u64,
    balance: u64,
)
    requires
        e.wf(),
        e.bounty.is_open(),
        amount > 0,
    ensures
        !contains_address(e.bounty.participants, participant) && e.bounty.participants.len()
            == MAX_PARTICIPANTS ==> spec_join_bounty(e, participant, amount, balance).0
            == Err::<u64, ErrorCode>(ErrorCode::InsufficientShares),
        contains_address(e.bounty.participants, participant) ==> spec_join_bounty(
            e,
            participant,
            amount,
            balance,
        ).0 != Err::<u64, ErrorCode>(ErrorCode::InsufficientShares),
{
    lemma_first_index_of(e.bounty.participants, participant);
}

/// Joining a solo bounty with any positive amount is refused as not open,
/// and the escrow is left exactly as it was.
pub proof fn lemma_join_solo_rejected(
    e: BountyEscrowView,
    participant: Address,
    amount: u64,
    balance: u64,
)
    requires
        e.bounty.is_solo(),
        amount > 0,
    ensures
        spec_join_bounty(e, participant, amount, balance) == (
            Err::<u64, ErrorCode>(ErrorCode::NotOpenBounty),
            e,
        ),
{
}

/// Joining with a zero amount is refused as malformed whatever the bounty
/// type and whatever the state, and the escrow is left exactly as it was.
pub proof fn lemma_join_zero_amount_rejected(
    e: BountyEscrowView,
    participant: Address,
    balance: u64,
)
    ensures
        spec_join_bounty(e, participant, 0, balance) == (
            Err::<u64, ErrorCode>(ErrorCode::InvalidArgument),
            e,
        ),
{
}

/// A solo bounty closed by its recorded authority refunds the full
/// custody balance, whenever the credited balance fits the balance type.
pub proof fn lemma_close_solo_by_authority(e: BountyEscrowView, balance: u64)
    requires
        e.bounty.is_solo(),
        balance + e.custody <= u64::MAX,
    ensures
        spec_close_bounty(e, e.bounty.authority, balance) == Ok::<u64, ErrorCode>(
            (balance + e.custody) as u64,
        ),
{
}

/// Any signer other than the recorded authority is refused, whatever the
/// bounty's type or state; close borrows the escrow, so a refusal leaves
/// record and balances untouched by construction.
pub proof fn lemma_close_wrong_signer(e: BountyEscrowView, signer: Address, balance: u64)
    requires
        signer != e.bounty.authority,
    ensures
        spec_close_bounty(e, signer, balance) == Err::<u64, ErrorCode>(
            ErrorCode::AuthorizationFailure,
        ),
{
}

/// An open bounty refuses to close while any participant entry remains,
/// and closes with the full custody refund once the ledger is empty.
pub proof fn lemma_close_open(e: BountyEscrowView, balance: u64)
    requires
        e.bounty.is_open(),
    ensures
        e.bounty.participants.len() > 0 ==> spec_close_bounty(e, e.bounty.authority, balance)
            == Err::<u64, ErrorCode>(ErrorCode::ParticipantAlreadyExists),
        e.bounty.participants.len() == 0 && balance + e.custody <= u64::MAX ==> spec_close_bounty(
            e,
            e.bounty.authority,
            balance,
        ) == Ok::<u64, ErrorCode>((balance + e.custody) as u64),
{
}

/// A refused join changes nothing, so repeating it with unchanged inputs
/// yields the very same refusal and the very same state.
pub proof fn lemma_failed_join_repeats(
    e: BountyEscrowView,
    participant: Address,
    amount: u64,
    balance: u64,
)
    ensures
        spec_join_bounty(e, participant, amount, balance).0 is Err ==> spec_join_bounty(
            e,
            participant,
            amount,
            balance,
        ).1 == e && spec_join_bounty(
            spec_join_bounty(e, participant, amount, balance).1,
            participant,
            amount,
            balance,
        ) == spec_join_bounty(e, participant, amount, balance),
{
}

} // verus!

//! The create operation: validate the arguments, take the deposit into
//! custody, and build the record.

use vstd::prelude::*;
use vstd::string::StrSliceExecFns;

use crate::error::ErrorCode;
use crate::state::bounty::{
    lemma_sum_push, sum_amounts, Address, Bounty, BountyEscrow, BountyEscrowView, BountyType,
    CreateBountyParams, CreateBountyParamsView, Participant, VoteTYpe, BOUNTY_TYPE_OPEN,
    MAX_DESCRIPTION_LENGTH, MAX_NAME_LENGTH,
};

verus! {

/// What the create operation yields, given the issuer's token balance:
/// either the new escrow (record plus custody balance) and the issuer's
/// balance after the deposit, or the exact refusal.
///
/// Both tags must decode, name and description must fit the record, the
/// deposit must be positive (a zero deposit would enroll a zero share and
/// is refused as malformed), and the issuer must hold the deposit; the
/// deposit transfer is atomic, so on any refusal nothing is created and
/// no balance moves.
pub open spec fn spec_create_bounty(
    authority: Address,
    mint: Address,
    payment_mint: Address,
    args: CreateBountyParamsView,
    created_at: i64,
    authority_balance: u64,
) -> Result<(BountyEscrowView, u64), ErrorCode> {
    if BountyType::spec_from_u8(args.bounty_type) is Err {
        Err(ErrorCode::InvalidArgument)
    } else if VoteTYpe::spec_from_u8(args.vote_type) is Err {
        Err(ErrorCode::InvalidArgument)
    } else if args.name.len() > MAX_NAME_LENGTH {
        Err(ErrorCode::InvalidArgument)
    } else if args.description.len() > MAX_DESCRIPTION_LENGTH {
        Err(ErrorCode::InvalidArgument)
    } else if args.amount == 0 {
        Err(ErrorCode::InvalidArgument)
    } else if authority_balance < args.amount {
        Err(ErrorCode::TransferFailure)
    } else {
        Ok(
            (
                BountyEscrowView {
                    bounty: Bounty::spec_new(
                        authority,
                        mint,
                        payment_mint,
                        args.name,
                        args.description,
                        args.amount,
                        created_at,
                        args.bounty_type,
                        args.vote_type,
                    ),
                    custody: args.amount,
                },
                (authority_balance - args.amount) as u64,
            ),
        )
    }
}

/// Create a bounty.
///
/// `authority` is the issuing identity (it co-signs and will be the only
/// identity allowed to close the bounty), `mint` the discriminator of this
/// bounty among the authority's, `payment_mint` the asset type pooled, and
/// `created_at` the caller's clock reading. `authority_balance` is the
/// issuer's balance of the asset; on success the returned escrow holds the
/// deposit in custody and the second component is the issuer's balance
/// after the deposit, and the caller owes the one atomic transfer of
/// `args.amount` from the issuer to the custody account before persisting
/// the record under `(authority, mint)`.
pub fn create_bounty(
    authority: Address,
    mint: Address,
    payment_mint: Address,
    args: CreateBountyParams,
    created_at: i64,
    authority_balance: u64,
) -> (r: Result<(BountyEscrow, u64), ErrorCode>)
    ensures
        match r {
            Ok(out) => spec_create_bounty(
                authority,
                mint,
                payment_mint,
                args@,
                created_at,
                authority_balance,
            ) == Ok::<(BountyEscrowView, u64), ErrorCode>((out.0@, out.1)) && out.0@.wf(),
            Err(e) => spec_create_bounty(
                authority,
                mint,
                payment_mint,
                args@,
                created_at,
                authority_balance,
            ) == Err::<(BountyEscrowView, u64), ErrorCode>(e),
        },
{
    let CreateBountyParams { name, description, amount, bounty_type, vote_type } = args;

    if let Err(e) = BountyType::from_u8(bounty_type) {
        return Err(e);
    }
    if let Err(e) = VoteTYpe::from_u8(vote_type) {
        return Err(e);
    }
    if name.as_str().unicode_len() > MAX_NAME_LENGTH {
        return Err(ErrorCode::InvalidArgument);
    }
    if description.as_str().unicode_len() > MAX_DESCRIPTION_LENGTH {
        return Err(ErrorCode::InvalidArgument);
    }
    if amount == 0 {
        return Err(ErrorCode::InvalidArgument);
    }
    if authority_balance < amount {
        return Err(ErrorCode::TransferFailure);
    }

    let bounty = Bounty::new(
        authority,
        mint,
        payment_mint,
        name,
        description,
        amount,
        created_at,
        bounty_type,
        vote_type,
    );
    let escrow = BountyEscrow { bounty, custody: amount };
    proof {
        if bounty_type == BOUNTY_TYPE_OPEN {
            assert(escrow@.bounty.participants
                =~= seq![Participant { address: authority, amount }]);
            assert(sum_amounts(escrow@.bounty.participants) == amount as int) by {
                lemma_sum_push(Seq::empty(), Participant { address: authority, amount });
                assert(Seq::<Participant>::empty().push(
                    Participant { address: authority, amount },
                ) =~= escrow@.bounty.participants);
            }
        }
    }
    Ok((escrow, authority_balance - amount))
}

} // verus!

//! Unit tests of the record constructor, the tag decoders, the ledger
//! primitives and the seed tuple.

use poidh::error::ErrorCode;
use poidh::state::bounty::{
    Address, Bounty, BountyType, Participant, VoteTYpe, MAX_DESCRIPTION_LENGTH, MAX_NAME_LENGTH,
    MAX_PARTICIPANTS,
};

fn addr(n: u64) -> Address {
    Address { w0: n, w1: 0, w2: 0, w3: 0 }
}

fn fresh_open_bounty(authority: Address, amount: u64) -> Bounty {
    Bounty::new(
        authority,
        addr(1000),
        addr(2000),
        "name".to_string(),
        "description".to_string(),
        amount,
        7,
        1,
        0,
    )
}

#[test]
fn limits_match_the_record_layout() {
    assert_eq!(MAX_NAME_LENGTH, 20);
    assert_eq!(MAX_DESCRIPTION_LENGTH, 200);
    assert_eq!(MAX_PARTICIPANTS, 10);
}

#[test]
fn tag_decoding_accepts_the_two_variants_and_nothing_else() {
    assert_eq!(BountyType::from_u8(0), Ok(BountyType::Solo));
    assert_eq!(BountyType::from_u8(1), Ok(BountyType::Open));
    assert_eq!(BountyType::from_u8(2), Err(ErrorCode::InvalidArgument));
    assert_eq!(BountyType::from_u8(255), Err(ErrorCode::InvalidArgument));

    assert_eq!(VoteTYpe::from_u8(0), Ok(VoteTYpe::Poidh));
    assert_eq!(VoteTYpe::from_u8(1), Ok(VoteTYpe::Generic));
    assert_eq!(VoteTYpe::from_u8(2), Err(ErrorCode::InvalidArgument));
}

#[test]
fn validators_mirror_the_decoders() {
    let bounty = fresh_open_bounty(addr(1), 5);
    assert_eq!(bounty.validate_bounty_type(0), Ok(()));
    assert_eq!(bounty.validate_bounty_type(1), Ok(()));
    assert_eq!(bounty.validate_bounty_type(3), Err(ErrorCode::InvalidArgument));
    assert_eq!(bounty.validate_vote_type(1), Ok(()));
    assert_eq!(bounty.validate_vote_type(200), Err(ErrorCode::InvalidArgument));
}

#[test]
fn new_solo_record_has_sentinels_and_an_empty_ledger() {
    let authority = addr(1);
    let bounty = Bounty::new(
        authority,
        addr(2),
        addr(3),
        "n".to_string(),
        "d".to_string(),
        42,
        123,
        0,
        1,
    );
    assert_eq!(bounty.authority, authority);
    assert_eq!(bounty.mint, addr(2));
    assert_eq!(bounty.payment_mint, addr(3));
    assert_eq!(bounty.amount, 42);
    assert_eq!(bounty.claimer, Address::zero());
    assert_eq!(bounty.created_at, 123);
    assert_eq!(bounty.claim_id, 0);
    assert_eq!(bounty.votes.yes, 0);
    assert_eq!(bounty.votes.no, 0);
    assert_eq!(bounty.votes.deadline, 0);
    assert!(bounty.participants.is_empty());
    assert_eq!(bounty.bounty_type, 0);
    assert_eq!(bounty.vote_type, 1);
}

#[test]
fn new_open_record_enrolls_the_creator() {
    let authority = addr(1);
    let bounty = fresh_open_bounty(authority, 42);
    assert_eq!(
        bounty.participants,
        vec![Participant { address: authority, amount: 42 }]
    );
}

#[test]
fn as_seeds_is_the_tag_the_authority_and_the_mint() {
    let bounty = fresh_open_bounty(addr(1), 5);
    let (tag, authority, mint) = bounty.as_seeds();
    assert_eq!(tag, b"bounty".to_vec());
    assert_eq!(authority, addr(1));
    assert_eq!(mint, addr(1000));
}

#[test]
fn participant_index_finds_the_first_entry() {
    let mut bounty = fresh_open_bounty(addr(1), 5);
    assert_eq!(bounty.participant_index(&addr(1)), Some(0));
    assert_eq!(bounty.participant_index(&addr(9)), None);
    bounty.add_participant(addr(9), 3).unwrap();
    assert_eq!(bounty.participant_index(&addr(9)), Some(1));
}

#[test]
fn add_participant_refuses_duplicates_and_overflowing_capacity() {
    let mut bounty = fresh_open_bounty(addr(1), 5);
    assert_eq!(
        bounty.add_participant(addr(1), 3),
        Err(ErrorCode::ParticipantAlreadyExists)
    );
    for n in 2..=10 {
        assert_eq!(bounty.add_participant(addr(n), 1), Ok(()));
    }
    assert_eq!(bounty.participants.len(), 10);
    assert_eq!(
        bounty.add_participant(addr(11), 1),
        Err(ErrorCode::InsufficientShares)
    );
    assert_eq!(bounty.participants.len(), 10);
}

#[test]
fn increase_participant_shares_grows_exactly_one_entry() {
    let mut bounty = fresh_open_bounty(addr(1), 5);
    bounty.add_participant(addr(9), 3).unwrap();
    assert_eq!(bounty.increase_participant_shares(addr(9), 4), Ok(()));
    assert_eq!(
        bounty.participants,
        vec![
            Participant { address: addr(1), amount: 5 },
            Participant { address: addr(9), amount: 7 },
        ]
    );
    assert_eq!(
        bounty.increase_participant_shares(addr(8), 4),
        Err(ErrorCode::ParticipantDoesNotExist)
    );
    assert_eq!(
        bounty.increase_participant_shares(addr(9), u64::MAX),
        Err(ErrorCode::ArithmeticOverflow)
    );
    assert_eq!(bounty.participants[1].amount, 7);
}

#[test]
fn validate_participants_empty_reports_any_remaining_entry() {
    let mut bounty = fresh_open_bounty(addr(1), 5);
    assert_eq!(
        bounty.validate_participants_empty(),
        Err(ErrorCode::ParticipantAlreadyExists)
    );
    bounty.participants.clear();
    assert_eq!(bounty.validate_participants_empty(), Ok(()));
}

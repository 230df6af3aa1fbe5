//! End-to-end scenarios of the bounty lifecycle: create, join, close.

use poidh::error::ErrorCode;
use poidh::instructions::close_bounty::close_bounty;
use poidh::instructions::create_bounty::create_bounty;
use poidh::instructions::join_bounty::join_bounty;
use poidh::state::bounty::{Address, BountyEscrow, CreateBountyParams, Participant};

fn addr(n: u64) -> Address {
    Address { w0: n, w1: 0, w2: 0, w3: 0 }
}

fn params(amount: u64, bounty_type: u8, vote_type: u8) -> CreateBountyParams {
    CreateBountyParams {
        name: "a bounty".to_string(),
        description: "a description".to_string(),
        amount,
        bounty_type,
        vote_type,
    }
}

fn open_escrow(authority: Address, amount: u64) -> BountyEscrow {
    let (escrow, _) = create_bounty(authority, addr(1000), addr(2000), params(amount, 1, 0), 7, amount)
        .expect("create must succeed when the balance covers the deposit");
    escrow
}

#[test]
fn create_solo_then_close_refunds_full_custody() {
    let authority = addr(1);
    let r = create_bounty(authority, addr(2), addr(3), params(100, 0, 0), 7, 100);
    let (escrow, issuer_balance) = r.expect("create must succeed");
    assert_eq!(escrow.custody, 100);
    assert_eq!(issuer_balance, 0);
    assert!(escrow.bounty.participants.is_empty());
    assert_eq!(escrow.bounty.amount, 100);

    let closed = close_bounty(&escrow, &authority, 0);
    assert_eq!(closed, Ok(100));
}

#[test]
fn create_open_seeds_creator_and_joins_merge_shares() {
    let creator = addr(1);
    let b = addr(9);
    let mut escrow = open_escrow(creator, 50);
    assert_eq!(
        escrow.bounty.participants,
        vec![Participant { address: creator, amount: 50 }]
    );
    assert_eq!(escrow.custody, 50);

    assert_eq!(join_bounty(&mut escrow, b, 30, 100), Ok(70));
    assert_eq!(join_bounty(&mut escrow, b, 20, 70), Ok(50));
    assert_eq!(
        escrow.bounty.participants,
        vec![
            Participant { address: creator, amount: 50 },
            Participant { address: b, amount: 50 },
        ]
    );
    assert_eq!(escrow.custody, 100);
}

#[test]
fn create_succeeds_iff_balance_covers_deposit() {
    let authority = addr(1);
    let short = create_bounty(authority, addr(2), addr(3), params(100, 0, 0), 7, 99);
    assert_eq!(short.unwrap_err(), ErrorCode::TransferFailure);

    let exact = create_bounty(authority, addr(2), addr(3), params(100, 1, 1), 7, 100);
    let (escrow, rest) = exact.expect("an exactly covering balance must succeed");
    assert_eq!(escrow.custody, 100);
    assert_eq!(rest, 0);
    assert_eq!(
        escrow.bounty.participants,
        vec![Participant { address: authority, amount: 100 }]
    );
}

#[test]
fn create_rejects_unknown_tags() {
    let r = create_bounty(addr(1), addr(2), addr(3), params(10, 2, 0), 7, 10);
    assert_eq!(r.unwrap_err(), ErrorCode::InvalidArgument);
    let r = create_bounty(addr(1), addr(2), addr(3), params(10, 1, 9), 7, 10);
    assert_eq!(r.unwrap_err(), ErrorCode::InvalidArgument);
}

#[test]
fn create_rejects_overlong_text() {
    let mut p = params(10, 0, 0);
    p.name = "exactly-twenty-chars".to_string();
    assert_eq!(p.name.chars().count(), 20);
    assert!(create_bounty(addr(1), addr(2), addr(3), p, 7, 10).is_ok());

    let mut p = params(10, 0, 0);
    p.name = "twenty-one-characters".to_string();
    assert_eq!(p.name.chars().count(), 21);
    assert_eq!(
        create_bounty(addr(1), addr(2), addr(3), p, 7, 10).unwrap_err(),
        ErrorCode::InvalidArgument
    );

    let mut p = params(10, 0, 0);
    p.description = "d".repeat(201);
    assert_eq!(
        create_bounty(addr(1), addr(2), addr(3), p, 7, 10).unwrap_err(),
        ErrorCode::InvalidArgument
    );
}

#[test]
fn create_rejects_zero_deposit() {
    let r = create_bounty(addr(1), addr(2), addr(3), params(0, 1, 0), 7, 10);
    assert_eq!(r.unwrap_err(), ErrorCode::InvalidArgument);
    let r = create_bounty(addr(1), addr(2), addr(3), params(0, 0, 0), 7, 10);
    assert_eq!(r.unwrap_err(), ErrorCode::InvalidArgument);
}

#[test]
fn join_solo_rejected_without_state_change() {
    let authority = addr(1);
    let (escrow, _) = create_bounty(authority, addr(2), addr(3), params(100, 0, 0), 7, 100)
        .expect("create must succeed");
    let before = escrow.clone();
    let mut escrow = escrow;
    assert_eq!(
        join_bounty(&mut escrow, addr(9), 5, 100).unwrap_err(),
        ErrorCode::NotOpenBounty
    );
    assert_eq!(escrow, before);
}

#[test]
fn join_zero_amount_rejected_whatever_the_state() {
    let mut solo = create_bounty(addr(1), addr(2), addr(3), params(100, 0, 0), 7, 100)
        .expect("create must succeed")
        .0;
    let before = solo.clone();
    assert_eq!(
        join_bounty(&mut solo, addr(9), 0, 100).unwrap_err(),
        ErrorCode::InvalidArgument
    );
    assert_eq!(solo, before);

    let mut open = open_escrow(addr(1), 50);
    let before = open.clone();
    assert_eq!(
        join_bounty(&mut open, addr(9), 0, 100).unwrap_err(),
        ErrorCode::InvalidArgument
    );
    assert_eq!(open, before);
}

#[test]
fn join_with_short_balance_fails_without_state_change() {
    let mut escrow = open_escrow(addr(1), 50);
    let before = escrow.clone();
    assert_eq!(
        join_bounty(&mut escrow, addr(9), 30, 29).unwrap_err(),
        ErrorCode::TransferFailure
    );
    assert_eq!(escrow, before);
}

#[test]
fn ledger_capacity_refuses_eleventh_address_but_not_an_increment() {
    let creator = addr(1);
    let mut escrow = open_escrow(creator, 10);
    for n in 2..=10 {
        assert_eq!(join_bounty(&mut escrow, addr(n), 10, 10), Ok(0));
    }
    assert_eq!(escrow.bounty.participants.len(), 10);

    let before = escrow.clone();
    assert_eq!(
        join_bounty(&mut escrow, addr(11), 10, 10).unwrap_err(),
        ErrorCode::InsufficientShares
    );
    assert_eq!(escrow, before);

    // An increment to an address already enrolled never fails on capacity.
    assert_eq!(join_bounty(&mut escrow, addr(5), 7, 7), Ok(0));
    assert_eq!(escrow.bounty.participants.len(), 10);
    assert_eq!(escrow.bounty.participants[4].amount, 17);
    assert_eq!(escrow.custody, 107);
}

#[test]
fn join_sum_of_shares_tracks_custody() {
    let creator = addr(1);
    let mut escrow = open_escrow(creator, 40);
    assert_eq!(join_bounty(&mut escrow, addr(2), 25, 25), Ok(0));
    assert_eq!(join_bounty(&mut escrow, addr(3), 35, 100), Ok(65));
    assert_eq!(join_bounty(&mut escrow, addr(2), 5, 65), Ok(60));
    let sum: u64 = escrow.bounty.participants.iter().map(|p| p.amount).sum();
    assert_eq!(sum, 40 + 25 + 35 + 5);
    assert_eq!(escrow.custody, sum);
    assert!(escrow.bounty.participants.iter().all(|p| p.amount > 0));
    assert!(escrow.bounty.participants.len() <= 10);
}

#[test]
fn join_share_overflow_is_refused_before_any_transfer() {
    let creator = addr(1);
    let mut escrow = open_escrow(creator, u64::MAX);
    let before = escrow.clone();
    assert_eq!(
        join_bounty(&mut escrow, creator, 1, 1).unwrap_err(),
        ErrorCode::ArithmeticOverflow
    );
    assert_eq!(escrow, before);
}

#[test]
fn join_custody_overflow_is_a_transfer_failure() {
    // The fresh entry fits, but crediting custody would wrap.
    let creator = addr(1);
    let mut escrow = open_escrow(creator, u64::MAX - 5);
    let before = escrow.clone();
    assert_eq!(
        join_bounty(&mut escrow, addr(2), 10, 10).unwrap_err(),
        ErrorCode::TransferFailure
    );
    assert_eq!(escrow, before);
}

#[test]
fn close_by_wrong_signer_fails_and_leaves_the_record() {
    let authority = addr(1);
    let (escrow, _) = create_bounty(authority, addr(2), addr(3), params(100, 0, 0), 7, 100)
        .expect("create must succeed");
    let before = escrow.clone();
    assert_eq!(
        close_bounty(&escrow, &addr(9), 0).unwrap_err(),
        ErrorCode::AuthorizationFailure
    );
    assert_eq!(escrow, before);
}

#[test]
fn close_open_with_participants_fails_until_ledger_is_empty() {
    let authority = addr(1);
    let escrow = open_escrow(authority, 50);
    assert_eq!(
        close_bounty(&escrow, &authority, 0).unwrap_err(),
        ErrorCode::ParticipantAlreadyExists
    );

    // Once the ledger has been emptied (by mechanisms outside this core,
    // which also drain the matching custody), the close succeeds.
    let mut drained = escrow;
    drained.bounty.participants.clear();
    drained.custody = 0;
    assert_eq!(close_bounty(&drained, &authority, 3), Ok(3));
}

#[test]
fn close_refuses_a_record_with_an_unknown_tag() {
    let authority = addr(1);
    let mut escrow = open_escrow(authority, 50);
    escrow.bounty.bounty_type = 7;
    assert_eq!(
        close_bounty(&escrow, &authority, 0).unwrap_err(),
        ErrorCode::InvalidState
    );
}

#[test]
fn close_refund_that_would_wrap_is_a_transfer_failure() {
    let authority = addr(1);
    let (escrow, _) = create_bounty(authority, addr(2), addr(3), params(1, 0, 0), 7, 1)
        .expect("create must succeed");
    assert_eq!(
        close_bounty(&escrow, &authority, u64::MAX).unwrap_err(),
        ErrorCode::TransferFailure
    );
}

#[test]
fn failed_operations_repeat_identically() {
    let authority = addr(1);
    let mut escrow = open_escrow(authority, 50);
    let before = escrow.clone();

    let first = join_bounty(&mut escrow, addr(9), 30, 29);
    let second = join_bounty(&mut escrow, addr(9), 30, 29);
    assert_eq!(first, second);
    assert_eq!(first.unwrap_err(), ErrorCode::TransferFailure);
    assert_eq!(escrow, before);

    let c1 = close_bounty(&escrow, &authority, 0);
    let c2 = close_bounty(&escrow, &authority, 0);
    assert_eq!(c1, c2);
    assert_eq!(c1.unwrap_err(), ErrorCode::ParticipantAlreadyExists);
    assert_eq!(escrow, before);

    let r1 = create_bounty(authority, addr(2), addr(3), params(100, 0, 0), 7, 99);
    let r2 = create_bounty(authority, addr(2), addr(3), params(100, 0, 0), 7, 99);
    assert_eq!(r1, r2);
    assert_eq!(r1.unwrap_err(), ErrorCode::TransferFailure);
}

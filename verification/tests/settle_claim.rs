//! Settlement and reward claims: winner selection, idempotence, pro-rata
//! payouts and pool conservation.

use poll_market::accounting::Escrow;
use poll_market::errors::PollError;
use poll_market::errors::SettlementError;
use poll_market::keys::AccountKey;
use poll_market::keys::ComponentId;
use poll_market::poll::create_poll;
use poll_market::poll::PollAccount;
use poll_market::poll::PollStatus;
use poll_market::settlement::claim_reward;
use poll_market::settlement::select_winner;
use poll_market::poll::settle_poll_cpi;
use poll_market::settlement::settle_poll;
use poll_market::user::signup;
use poll_market::vote::cast_vote;
use poll_market::vote::VoteAccount;

fn key(n: u64) -> AccountKey {
    AccountKey { w0: n, w1: 0, w2: 0, w3: 0 }
}

fn poll_slot() -> AccountKey {
    key(1_000)
}

fn fresh_poll(creator: AccountKey, unit_price: u64, investment: u64) -> PollAccount {
    create_poll(
        creator,
        1,
        "t".to_string(),
        "d".to_string(),
        "c".to_string(),
        "".to_string(),
        vec!["Yes".to_string(), "No".to_string()],
        unit_price,
        1_000,
        investment,
        500,
    )
    .unwrap()
}

fn fresh_escrow(investment: u64) -> Escrow {
    let mut e = Escrow { spendable: 0, reserved: 0 };
    assert!(e.deposit(investment));
    e
}

#[test]
fn select_winner_lowest_index_on_tie() {
    assert_eq!(select_winner(&vec![0, 0, 0]), None);
    assert_eq!(select_winner(&vec![5, 0, 0]), Some(0));
    assert_eq!(select_winner(&vec![0, 3, 3]), Some(1));
    assert_eq!(select_winner(&vec![2, 7, 7, 1]), Some(1));
    assert_eq!(select_winner(&vec![1, 2, 3]), Some(2));
}

#[test]
fn settle_scenario_a() {
    let creator = key(1);
    let voter = key(2);
    let mut poll = fresh_poll(creator, 100, 10_000);
    let mut vote = VoteAccount::blank();
    let mut user = signup(voter, true, 500);
    let mut escrow = fresh_escrow(10_000);
    cast_vote(&mut poll, &mut vote, &mut user, &mut escrow, poll_slot(), voter, 0, 10, 600)
        .unwrap();
    let payout = settle_poll(&mut poll, &mut escrow, 1_000).unwrap();
    assert_eq!(payout, 100);
    assert_eq!(poll.status, PollStatus::Settled);
    assert_eq!(poll.winning_option, Some(0));
    assert_eq!(escrow.spendable, 10_900);
    let reward = claim_reward(&poll, &mut vote, &mut user, &mut escrow, 1_001).unwrap();
    assert_eq!(reward, 10_800);
    assert!(vote.claimed);
    assert_eq!(vote.reward_amount, 10_800);
    assert_eq!(user.demo_balance, 500_000 - 1_000 + 10_800);
    assert_eq!(user.total_wins, 1);
    assert_eq!(user.total_winning_amount, 10_800);
    // what stays in escrow is exactly the platform fee
    assert_eq!(escrow.spendable, 100);
}

#[test]
fn settle_twice_fails_unchanged() {
    let creator = key(1);
    let voter = key(2);
    let mut poll = fresh_poll(creator, 100, 10_000);
    let mut vote = VoteAccount::blank();
    let mut user = signup(voter, true, 500);
    let mut escrow = fresh_escrow(10_000);
    cast_vote(&mut poll, &mut vote, &mut user, &mut escrow, poll_slot(), voter, 0, 10, 600)
        .unwrap();
    settle_poll(&mut poll, &mut escrow, 1_000).unwrap();
    let counts = poll.vote_counts.clone();
    let spendable = escrow.spendable;
    let r = settle_poll(&mut poll, &mut escrow, 2_000);
    assert_eq!(r, Err(SettlementError::AlreadySettled));
    assert_eq!(poll.status, PollStatus::Settled);
    assert_eq!(poll.winning_option, Some(0));
    assert_eq!(poll.vote_counts, counts);
    assert_eq!(escrow.spendable, spendable);
}

#[test]
fn settle_rejects_before_end() {
    let mut poll = fresh_poll(key(1), 100, 10_000);
    let mut escrow = fresh_escrow(10_000);
    let r = settle_poll(&mut poll, &mut escrow, 999);
    assert_eq!(r, Err(SettlementError::PollNotEnded));
    assert_eq!(poll.status, PollStatus::Active);
}

#[test]
fn settle_zero_votes_refunds_everything() {
    let creator = key(1);
    let mut poll = fresh_poll(creator, 100, 10_000);
    let mut escrow = fresh_escrow(10_000);
    let payout = settle_poll(&mut poll, &mut escrow, 1_000).unwrap();
    assert_eq!(payout, 10_000);
    assert_eq!(escrow.spendable, 0);
    assert_eq!(poll.status, PollStatus::Settled);
    assert_eq!(poll.winning_option, None);
    // any later claim fails: there was no winner
    let mut vote = VoteAccount::blank();
    let mut user = signup(key(2), true, 500);
    let r = claim_reward(&poll, &mut vote, &mut user, &mut escrow, 1_001);
    assert_eq!(r, Err(SettlementError::NoVotes));
    assert!(!vote.claimed);
    assert_eq!(user.demo_balance, 500_000);
}

#[test]
fn settle_rejects_short_escrow() {
    let creator = key(1);
    let voter = key(2);
    let mut poll = fresh_poll(creator, 100, 10_000);
    let mut vote = VoteAccount::blank();
    let mut user = signup(voter, true, 500);
    let mut escrow = fresh_escrow(10_000);
    cast_vote(&mut poll, &mut vote, &mut user, &mut escrow, poll_slot(), voter, 0, 1, 600)
        .unwrap();
    // drain the escrow below the creator reward
    let mut short = Escrow { spendable: 50, reserved: 0 };
    let r = settle_poll(&mut poll, &mut short, 1_000);
    assert_eq!(r, Err(SettlementError::InsufficientEscrow));
    assert_eq!(poll.status, PollStatus::Active);
}

#[test]
fn claim_split_three_to_one() {
    // two voters split the winning option 3:1 and the pool is 4,000
    let creator = key(1);
    let mut poll = fresh_poll(creator, 500, 2_040);
    let mut escrow = fresh_escrow(2_040);
    let mut vote_a = VoteAccount::blank();
    let mut vote_b = VoteAccount::blank();
    let mut user_a = signup(key(2), true, 500);
    let mut user_b = signup(key(3), true, 500);
    cast_vote(&mut poll, &mut vote_a, &mut user_a, &mut escrow, poll_slot(), key(2), 0, 3, 600)
        .unwrap();
    cast_vote(&mut poll, &mut vote_b, &mut user_b, &mut escrow, poll_slot(), key(3), 0, 1, 600)
        .unwrap();
    assert_eq!(poll.total_pool_cents, 4_000);
    settle_poll(&mut poll, &mut escrow, 1_000).unwrap();
    let first = claim_reward(&poll, &mut vote_a, &mut user_a, &mut escrow, 1_001).unwrap();
    let second = claim_reward(&poll, &mut vote_b, &mut user_b, &mut escrow, 1_002).unwrap();
    assert_eq!(first, 3_000);
    assert_eq!(second, 1_000);
    // conservation: all rewards together never exceed the pool
    assert!(first + second <= poll.total_pool_cents);
    assert_eq!(first + second, 4_000);
}

#[test]
fn claim_rounds_down_and_leaves_remainder() {
    // three winning coins over a pool that does not divide evenly
    let creator = key(1);
    let mut poll = fresh_poll(creator, 100, 10_000);
    let mut escrow = fresh_escrow(10_000);
    let mut vote_a = VoteAccount::blank();
    let mut vote_b = VoteAccount::blank();
    let mut user_a = signup(key(2), true, 500);
    let mut user_b = signup(key(3), true, 500);
    cast_vote(&mut poll, &mut vote_a, &mut user_a, &mut escrow, poll_slot(), key(2), 0, 2, 600)
        .unwrap();
    cast_vote(&mut poll, &mut vote_b, &mut user_b, &mut escrow, poll_slot(), key(3), 0, 1, 600)
        .unwrap();
    // pool = 9_800 + 300 = 10_100; 10_100 / 3 floors
    settle_poll(&mut poll, &mut escrow, 1_000).unwrap();
    let first = claim_reward(&poll, &mut vote_a, &mut user_a, &mut escrow, 1_001).unwrap();
    let second = claim_reward(&poll, &mut vote_b, &mut user_b, &mut escrow, 1_002).unwrap();
    assert_eq!(first, 2 * 10_100 / 3);
    assert_eq!(second, 10_100 / 3);
    assert!(first + second <= 10_100);
    assert_eq!(10_100 - (first + second), 1);
}

#[test]
fn claim_twice_fails_unchanged() {
    let creator = key(1);
    let voter = key(2);
    let mut poll = fresh_poll(creator, 100, 10_000);
    let mut vote = VoteAccount::blank();
    let mut user = signup(voter, true, 500);
    let mut escrow = fresh_escrow(10_000);
    cast_vote(&mut poll, &mut vote, &mut user, &mut escrow, poll_slot(), voter, 0, 10, 600)
        .unwrap();
    settle_poll(&mut poll, &mut escrow, 1_000).unwrap();
    claim_reward(&poll, &mut vote, &mut user, &mut escrow, 1_001).unwrap();
    let balance = user.demo_balance;
    let spendable = escrow.spendable;
    let r = claim_reward(&poll, &mut vote, &mut user, &mut escrow, 1_002);
    assert_eq!(r, Err(SettlementError::AlreadyClaimed));
    assert_eq!(user.demo_balance, balance);
    assert_eq!(escrow.spendable, spendable);
    assert!(vote.claimed);
}

#[test]
fn claim_rejects_before_settlement() {
    let creator = key(1);
    let voter = key(2);
    let mut poll = fresh_poll(creator, 100, 10_000);
    let mut vote = VoteAccount::blank();
    let mut user = signup(voter, true, 500);
    let mut escrow = fresh_escrow(10_000);
    cast_vote(&mut poll, &mut vote, &mut user, &mut escrow, poll_slot(), voter, 0, 10, 600)
        .unwrap();
    let r = claim_reward(&poll, &mut vote, &mut user, &mut escrow, 700);
    assert_eq!(r, Err(SettlementError::NotSettled));
}

#[test]
fn claim_rejects_losing_voter() {
    let creator = key(1);
    let mut poll = fresh_poll(creator, 100, 10_000);
    let mut escrow = fresh_escrow(10_000);
    let mut vote_a = VoteAccount::blank();
    let mut vote_b = VoteAccount::blank();
    let mut user_a = signup(key(2), true, 500);
    let mut user_b = signup(key(3), true, 500);
    cast_vote(&mut poll, &mut vote_a, &mut user_a, &mut escrow, poll_slot(), key(2), 0, 5, 600)
        .unwrap();
    cast_vote(&mut poll, &mut vote_b, &mut user_b, &mut escrow, poll_slot(), key(3), 1, 2, 600)
        .unwrap();
    settle_poll(&mut poll, &mut escrow, 1_000).unwrap();
    assert_eq!(poll.winning_option, Some(0));
    let r = claim_reward(&poll, &mut vote_b, &mut user_b, &mut escrow, 1_001);
    assert_eq!(r, Err(SettlementError::NotAWinner));
    assert!(!vote_b.claimed);
}

#[test]
fn claim_rejects_short_escrow() {
    let creator = key(1);
    let voter = key(2);
    let mut poll = fresh_poll(creator, 100, 10_000);
    let mut vote = VoteAccount::blank();
    let mut user = signup(voter, true, 500);
    let mut escrow = fresh_escrow(10_000);
    cast_vote(&mut poll, &mut vote, &mut user, &mut escrow, poll_slot(), voter, 0, 10, 600)
        .unwrap();
    settle_poll(&mut poll, &mut escrow, 1_000).unwrap();
    let mut drained = Escrow { spendable: 10, reserved: 0 };
    let r = claim_reward(&poll, &mut vote, &mut user, &mut drained, 1_001);
    assert_eq!(r, Err(SettlementError::InsufficientEscrow));
    assert!(!vote.claimed);
    assert_eq!(drained.spendable, 10);
}

#[test]
fn settle_endpoint_requires_settlement_identity() {
    let mut poll = fresh_poll(key(1), 100, 10_000);
    let r = settle_poll_cpi(&mut poll, ComponentId::VoteLedger, Some(0), 1_000);
    assert_eq!(r, Err(PollError::UnauthorizedCaller));
    assert_eq!(poll.status, PollStatus::Active);
    let r = settle_poll_cpi(&mut poll, ComponentId::Settlement, Some(0), 999);
    assert_eq!(r, Err(PollError::PollNotEnded));
    let r = settle_poll_cpi(&mut poll, ComponentId::Settlement, Some(0), 1_000);
    assert_eq!(r, Ok(()));
    assert_eq!(poll.status, PollStatus::Settled);
    assert_eq!(poll.winning_option, Some(0));
}

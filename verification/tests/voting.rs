//! Vote casting: cost accounting, tally consistency and the voting guards.

use poll_market::accounting::Escrow;
use poll_market::errors::PollError;
use poll_market::errors::UserError;
use poll_market::errors::VoteError;
use poll_market::keys::AccountKey;
use poll_market::keys::ComponentId;
use poll_market::poll::create_poll;
use poll_market::poll::edit_poll;
use poll_market::poll::record_vote;
use poll_market::poll::PollAccount;
use poll_market::user::debit_balance;
use poll_market::user::signup;
use poll_market::vote::cast_vote;
use poll_market::vote::mark_claimed;
use poll_market::vote::VoteAccount;

fn key(n: u64) -> AccountKey {
    AccountKey { w0: n, w1: 0, w2: 0, w3: 0 }
}

fn poll_slot() -> AccountKey {
    key(1_000)
}

fn fresh_poll(creator: AccountKey) -> PollAccount {
    create_poll(
        creator,
        1,
        "t".to_string(),
        "d".to_string(),
        "c".to_string(),
        "".to_string(),
        vec!["Yes".to_string(), "No".to_string()],
        100,
        1_000,
        10_000,
        500,
    )
    .unwrap()
}

fn fresh_escrow(investment: u64) -> Escrow {
    let mut e = Escrow { spendable: 0, reserved: 0 };
    assert!(e.deposit(investment));
    e
}

#[test]
fn cast_vote_scenario_a_tallies() {
    let creator = key(1);
    let voter = key(2);
    let mut poll = fresh_poll(creator);
    let mut vote = VoteAccount::blank();
    let mut user = signup(voter, true, 500);
    let mut escrow = fresh_escrow(10_000);
    let r = cast_vote(&mut poll, &mut vote, &mut user, &mut escrow, poll_slot(), voter, 0, 10, 600);
    assert_eq!(r, Ok(1_000));
    assert_eq!(poll.vote_counts, vec![10, 0]);
    assert_eq!(poll.total_pool_cents, 10_800);
    assert_eq!(poll.total_voters, 1);
    assert_eq!(vote.voter, voter);
    assert_eq!(vote.poll, poll_slot());
    assert_eq!(vote.votes_per_option, vec![10, 0]);
    assert_eq!(vote.total_staked_cents, 1_000);
    assert!(!vote.claimed);
    assert_eq!(user.demo_balance, 500_000 - 1_000);
    assert_eq!(user.total_votes, 10);
    assert_eq!(escrow.spendable, 11_000);
}

#[test]
fn cast_vote_twice_keeps_voter_count() {
    let creator = key(1);
    let voter = key(2);
    let mut poll = fresh_poll(creator);
    let mut vote = VoteAccount::blank();
    let mut user = signup(voter, true, 500);
    let mut escrow = fresh_escrow(10_000);
    cast_vote(&mut poll, &mut vote, &mut user, &mut escrow, poll_slot(), voter, 0, 3, 600)
        .unwrap();
    cast_vote(&mut poll, &mut vote, &mut user, &mut escrow, poll_slot(), voter, 1, 2, 601)
        .unwrap();
    assert_eq!(poll.vote_counts, vec![3, 2]);
    assert_eq!(poll.total_voters, 1);
    assert_eq!(vote.votes_per_option, vec![3, 2]);
    assert_eq!(vote.total_staked_cents, 500);
}

#[test]
fn tallies_match_vote_records_after_any_sequence() {
    let creator = key(1);
    let mut poll = fresh_poll(creator);
    let mut escrow = fresh_escrow(10_000);
    let mut vote_a = VoteAccount::blank();
    let mut vote_b = VoteAccount::blank();
    let mut user_a = signup(key(2), true, 500);
    let mut user_b = signup(key(3), true, 500);
    let casts: [(u8, u64, bool); 5] = [(0, 3, true), (1, 2, false), (0, 7, false), (1, 1, true), (0, 4, true)];
    for (option, coins, first_user) in casts {
        if first_user {
            cast_vote(
                &mut poll, &mut vote_a, &mut user_a, &mut escrow, poll_slot(), key(2), option,
                coins, 600,
            )
            .unwrap();
        } else {
            cast_vote(
                &mut poll, &mut vote_b, &mut user_b, &mut escrow, poll_slot(), key(3), option,
                coins, 600,
            )
            .unwrap();
        }
    }
    for i in 0..poll.vote_counts.len() {
        assert_eq!(poll.vote_counts[i], vote_a.votes_per_option[i] + vote_b.votes_per_option[i]);
    }
    let tally_sum: u64 = poll.vote_counts.iter().sum();
    let record_sum: u64 = vote_a.votes_per_option.iter().sum::<u64>()
        + vote_b.votes_per_option.iter().sum::<u64>();
    assert_eq!(tally_sum, record_sum);
    assert_eq!(poll.total_voters, 2);
}

#[test]
fn cast_vote_rejects_creator() {
    let creator = key(1);
    let mut poll = fresh_poll(creator);
    let mut vote = VoteAccount::blank();
    let mut user = signup(creator, true, 500);
    let mut escrow = fresh_escrow(10_000);
    let before = poll.vote_counts.clone();
    let r = cast_vote(
        &mut poll, &mut vote, &mut user, &mut escrow, poll_slot(), creator, 0, 1, 600,
    );
    assert_eq!(r, Err(VoteError::CreatorCannotVote));
    assert_eq!(poll.vote_counts, before);
    assert_eq!(user.demo_balance, 500_000);
    assert_eq!(escrow.spendable, 10_000);
}

#[test]
fn cast_vote_rejects_zero_coins() {
    let mut poll = fresh_poll(key(1));
    let mut vote = VoteAccount::blank();
    let mut user = signup(key(2), true, 500);
    let mut escrow = fresh_escrow(10_000);
    let r = cast_vote(&mut poll, &mut vote, &mut user, &mut escrow, poll_slot(), key(2), 0, 0, 600);
    assert_eq!(r, Err(VoteError::ZeroCoins));
}

#[test]
fn cast_vote_rejects_bad_option() {
    let mut poll = fresh_poll(key(1));
    let mut vote = VoteAccount::blank();
    let mut user = signup(key(2), true, 500);
    let mut escrow = fresh_escrow(10_000);
    let r = cast_vote(&mut poll, &mut vote, &mut user, &mut escrow, poll_slot(), key(2), 2, 1, 600);
    assert_eq!(r, Err(VoteError::InvalidOption));
}

#[test]
fn cast_vote_rejects_after_end() {
    let mut poll = fresh_poll(key(1));
    let mut vote = VoteAccount::blank();
    let mut user = signup(key(2), true, 500);
    let mut escrow = fresh_escrow(10_000);
    let r = cast_vote(
        &mut poll, &mut vote, &mut user, &mut escrow, poll_slot(), key(2), 0, 1, 1_000,
    );
    assert_eq!(r, Err(VoteError::PollEnded));
}

#[test]
fn cast_vote_rejects_insufficient_funds() {
    let mut poll = fresh_poll(key(1));
    let mut vote = VoteAccount::blank();
    let mut user = signup(key(2), false, 500);
    let mut escrow = fresh_escrow(10_000);
    let r = cast_vote(&mut poll, &mut vote, &mut user, &mut escrow, poll_slot(), key(2), 0, 1, 600);
    assert_eq!(r, Err(VoteError::InsufficientFunds));
}

#[test]
fn cast_vote_rejects_cost_overflow() {
    let mut poll = fresh_poll(key(1));
    let mut vote = VoteAccount::blank();
    let mut user = signup(key(2), true, 500);
    let mut escrow = fresh_escrow(10_000);
    let r = cast_vote(
        &mut poll, &mut vote, &mut user, &mut escrow, poll_slot(), key(2), 0, u64::MAX, 600,
    );
    assert_eq!(r, Err(VoteError::Overflow));
}

#[test]
fn cast_vote_blocked_after_edit_window_closes() {
    // Editing is impossible once a vote exists; voting remains possible.
    let creator = key(1);
    let mut poll = fresh_poll(creator);
    let mut vote = VoteAccount::blank();
    let mut user = signup(key(2), true, 500);
    let mut escrow = fresh_escrow(10_000);
    cast_vote(&mut poll, &mut vote, &mut user, &mut escrow, poll_slot(), key(2), 0, 1, 600)
        .unwrap();
    let before_counts = poll.vote_counts.clone();
    let before_title = poll.title.clone();
    let r = edit_poll(
        &mut poll,
        creator,
        "new".to_string(),
        "new".to_string(),
        "new".to_string(),
        "".to_string(),
        vec!["a".to_string(), "b".to_string()],
        2_000,
        700,
    );
    assert_eq!(r, Err(PollError::PollHasVotes));
    assert_eq!(poll.vote_counts, before_counts);
    assert_eq!(poll.title, before_title);
    assert_eq!(poll.end_time, 1_000);
}

#[test]
fn record_vote_requires_vote_ledger_identity() {
    let mut poll = fresh_poll(key(1));
    let r = record_vote(&mut poll, ComponentId::Settlement, 0, 1, 100, true);
    assert_eq!(r, Err(PollError::UnauthorizedCaller));
    assert_eq!(poll.vote_counts, vec![0, 0]);
}

#[test]
fn mark_claimed_requires_settlement_identity() {
    let mut vote = VoteAccount::blank();
    let r = mark_claimed(&mut vote, ComponentId::VoteLedger, 5);
    assert_eq!(r, Err(VoteError::UnauthorizedCaller));
    assert!(!vote.claimed);
}

#[test]
fn debit_balance_requires_vote_ledger_identity() {
    let mut user = signup(key(2), true, 500);
    let r = debit_balance(&mut user, ComponentId::Settlement, 10);
    assert_eq!(r, Err(UserError::UnauthorizedCaller));
    assert_eq!(user.demo_balance, 500_000);
}

#[test]
fn debit_balance_rejects_short_balance() {
    let mut user = signup(key(2), true, 500);
    let r = debit_balance(&mut user, ComponentId::VoteLedger, 500_001);
    assert_eq!(r, Err(UserError::InsufficientBalance));
    assert_eq!(user.demo_balance, 500_000);
}

#[test]
fn record_vote_updates_tally_and_pool() {
    let mut poll = fresh_poll(key(1));
    let r = record_vote(&mut poll, ComponentId::VoteLedger, 1, 4, 400, true);
    assert_eq!(r, Ok(()));
    assert_eq!(poll.vote_counts, vec![0, 4]);
    assert_eq!(poll.total_pool_cents, 9_800 + 400);
    assert_eq!(poll.total_voters, 1);
}

#[test]
fn cast_vote_rejects_settled_poll() {
    let mut poll = fresh_poll(key(1));
    let mut escrow = fresh_escrow(10_000);
    poll_market::settlement::settle_poll(&mut poll, &mut escrow, 1_000).unwrap();
    let mut vote = VoteAccount::blank();
    let mut user = signup(key(2), true, 500);
    let r = cast_vote(
        &mut poll, &mut vote, &mut user, &mut escrow, poll_slot(), key(2), 0, 1, 1_001,
    );
    assert_eq!(r, Err(VoteError::PollNotActive));
}

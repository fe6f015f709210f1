//! User profiles: signup, weekly rewards, window resets and balance moves.

use poll_market::errors::UserError;
use poll_market::keys::AccountKey;
use poll_market::keys::ComponentId;
use poll_market::user::claim_weekly_reward;
use poll_market::user::credit_balance;
use poll_market::user::debit_balance;
use poll_market::user::signup;
use poll_market::user::MONTH_SECONDS;
use poll_market::user::SIGNUP_BONUS_CENTS;
use poll_market::user::WEEKLY_REWARD_CENTS;
use poll_market::user::WEEK_SECONDS;

fn key(n: u64) -> AccountKey {
    AccountKey { w0: n, w1: 0, w2: 0, w3: 0 }
}

#[test]
fn signup_demo_gets_bonus() {
    let u = signup(key(1), true, 42);
    assert_eq!(u.authority, key(1));
    assert!(u.is_demo);
    assert_eq!(u.demo_balance, SIGNUP_BONUS_CENTS);
    assert_eq!(u.demo_balance, 500_000);
    assert!(u.signup_bonus_claimed);
    assert_eq!(u.last_weekly_reward_ts, 42);
    assert_eq!(u.created_at, 42);
    assert_eq!(u.total_votes, 0);
    assert_eq!(u.polls_created, 0);
}

#[test]
fn signup_real_starts_empty() {
    let u = signup(key(1), false, 42);
    assert!(!u.is_demo);
    assert_eq!(u.demo_balance, 0);
    assert!(!u.signup_bonus_claimed);
    assert_eq!(u.last_weekly_reward_ts, 0);
}

#[test]
fn weekly_reward_after_a_week() {
    let mut u = signup(key(1), true, 0);
    let r = claim_weekly_reward(&mut u, WEEK_SECONDS);
    assert_eq!(r, Ok(()));
    assert_eq!(u.demo_balance, SIGNUP_BONUS_CENTS + WEEKLY_REWARD_CENTS);
    assert_eq!(u.last_weekly_reward_ts, WEEK_SECONDS);
    assert_eq!(u.last_active_at, WEEK_SECONDS);
}

#[test]
fn weekly_reward_not_ready_too_soon() {
    let mut u = signup(key(1), true, 0);
    let r = claim_weekly_reward(&mut u, WEEK_SECONDS - 1);
    assert_eq!(r, Err(UserError::WeeklyRewardNotReady));
    assert_eq!(u.demo_balance, SIGNUP_BONUS_CENTS);
}

#[test]
fn weekly_reward_not_for_real_accounts() {
    let mut u = signup(key(1), false, 0);
    let r = claim_weekly_reward(&mut u, 10 * WEEK_SECONDS);
    assert_eq!(r, Err(UserError::WeeklyRewardNotReady));
    assert_eq!(u.demo_balance, 0);
}

#[test]
fn weekly_claim_rolls_windows() {
    let mut u = signup(key(1), true, 0);
    u.weekly_winning_amount = 7;
    u.monthly_winning_amount = 9;
    claim_weekly_reward(&mut u, WEEK_SECONDS).unwrap();
    assert_eq!(u.weekly_winning_amount, 0);
    assert_eq!(u.weekly_reset_ts, WEEK_SECONDS);
    // a week is not a month: the monthly window stays
    assert_eq!(u.monthly_winning_amount, 9);
    assert_eq!(u.monthly_reset_ts, 0);
    claim_weekly_reward(&mut u, MONTH_SECONDS).unwrap();
    assert_eq!(u.monthly_winning_amount, 0);
    assert_eq!(u.monthly_reset_ts, MONTH_SECONDS);
}

#[test]
fn debit_and_credit_move_balance() {
    let mut u = signup(key(1), true, 0);
    debit_balance(&mut u, ComponentId::VoteLedger, 1_500).unwrap();
    assert_eq!(u.demo_balance, 498_500);
    credit_balance(&mut u, ComponentId::Settlement, 2_000, 10).unwrap();
    assert_eq!(u.demo_balance, 500_500);
    assert_eq!(u.total_wins, 1);
    assert_eq!(u.total_winning_amount, 2_000);
    assert_eq!(u.weekly_winning_amount, 2_000);
    assert_eq!(u.monthly_winning_amount, 2_000);
    assert_eq!(u.last_active_at, 10);
}

#[test]
fn credit_requires_settlement_identity() {
    let mut u = signup(key(1), true, 0);
    let r = credit_balance(&mut u, ComponentId::VoteLedger, 2_000, 10);
    assert_eq!(r, Err(UserError::UnauthorizedCaller));
    assert_eq!(u.demo_balance, SIGNUP_BONUS_CENTS);
    assert_eq!(u.total_wins, 0);
}

#[test]
fn credit_rejects_balance_overflow() {
    let mut u = signup(key(1), true, 0);
    u.demo_balance = u64::MAX - 10;
    let r = credit_balance(&mut u, ComponentId::Settlement, 11, 10);
    assert_eq!(r, Err(UserError::Overflow));
    assert_eq!(u.demo_balance, u64::MAX - 10);
}

#[test]
fn credit_saturates_lifetime_stats() {
    let mut u = signup(key(1), true, 0);
    u.total_winning_amount = u64::MAX - 5;
    credit_balance(&mut u, ComponentId::Settlement, 100, 10).unwrap();
    assert_eq!(u.total_winning_amount, u64::MAX);
    assert_eq!(u.demo_balance, SIGNUP_BONUS_CENTS + 100);
}

#[test]
fn debit_zero_is_rejected() {
    let mut u = signup(key(1), true, 0);
    let r = debit_balance(&mut u, ComponentId::VoteLedger, 0);
    assert_eq!(r, Err(UserError::InsufficientBalance));
}

#[test]
fn weekly_reward_rejects_balance_overflow() {
    let mut u = signup(key(1), true, 0);
    u.demo_balance = u64::MAX - 10;
    let r = claim_weekly_reward(&mut u, WEEK_SECONDS);
    assert_eq!(r, Err(UserError::Overflow));
    assert_eq!(u.demo_balance, u64::MAX - 10);
}

//! The user ledger: per-principal profiles, balances and lifetime counters.
//!
//! A profile is created once per principal at signup and mutated by every
//! operation that changes stats or balance.  The balance is an internal
//! ledger in a minor currency unit; it can never go negative.  The two
//! privileged endpoints (`debit_balance`, `credit_balance`) each allow-list a
//! single calling component.

use vstd::prelude::*;

use crate::errors::UserError;
use crate::keys::AccountKey;
use crate::keys::ComponentId;

verus! {

/// Signup bonus for demo users, in cents.
pub const SIGNUP_BONUS_CENTS: u64 = 500_000;

/// Weekly reward for demo users, in cents.
pub const WEEKLY_REWARD_CENTS: u64 = 100_000;

/// Seven days, in seconds.
pub const WEEK_SECONDS: i64 = 7 * 24 * 60 * 60;

/// Thirty days, in seconds.
pub const MONTH_SECONDS: i64 = 30 * 24 * 60 * 60;

/// Saturating addition on balances and counters: a counter that would
/// overflow sticks at the maximum instead of failing the whole operation.
pub open spec fn sat_add(a: u64, b: u64) -> u64 {
    if a + b > u64::MAX {
        u64::MAX
    } else {
        (a + b) as u64
    }
}

/// A user profile.  All amounts are in a minor currency unit (cents).
#[derive(Clone, Copy, PartialEq, Eq, Structural, Debug)]
pub struct UserAccount {
    /// The principal's key: their primary identity.
    pub authority: AccountKey,
    /// Demo or real account.
    pub is_demo: bool,
    /// Demo balance.
    pub demo_balance: u64,
    /// Real balance (held for future use).
    pub real_balance: u64,
    /// Whether the signup bonus was paid; one-way false to true.
    pub signup_bonus_claimed: bool,
    /// When the weekly reward was last credited.
    pub last_weekly_reward_ts: i64,
    /// Lifetime option coins bought.
    pub total_votes: u64,
    /// Lifetime polls won.
    pub total_wins: u64,
    /// Lifetime polls lost.
    pub total_losses: u64,
    /// Lifetime winnings.
    pub total_winning_amount: u64,
    /// Winnings inside the current weekly window.
    pub weekly_winning_amount: u64,
    /// Winnings inside the current monthly window.
    pub monthly_winning_amount: u64,
    /// When the weekly window was last reset.
    pub weekly_reset_ts: i64,
    /// When the monthly window was last reset.
    pub monthly_reset_ts: i64,
    /// Lifetime polls created.
    pub polls_created: u64,
    /// Lifetime creator rewards received.
    pub creator_earnings: u64,
    /// Creation timestamp.
    pub created_at: i64,
    /// When the profile was last touched.
    pub last_active_at: i64,
}

impl UserAccount {
    /// Well-formedness: the reward and window timestamps are proper (never
    /// negative) unix timestamps, so window arithmetic cannot overflow.
    pub open spec fn wf(self) -> bool {
        &&& 0 <= self.last_weekly_reward_ts
        &&& 0 <= self.weekly_reset_ts
        &&& 0 <= self.monthly_reset_ts
    }

    /// Resets the weekly winnings window once a full week has elapsed;
    /// otherwise leaves the profile untouched.  Never skipped retroactively:
    /// each call resets at most one window, to `now`.
    pub fn maybe_reset_weekly(&mut self, now: i64)
        requires
            old(self).wf(),
            now >= 0,
        ensures
            final(self).wf(),
            now - old(self).weekly_reset_ts >= WEEK_SECONDS ==> *final(self) == (UserAccount {
                weekly_winning_amount: 0,
                weekly_reset_ts: now,
                ..*old(self)
            }),
            now - old(self).weekly_reset_ts < WEEK_SECONDS ==> *final(self) == *old(self),
    {
        if now - self.weekly_reset_ts >= WEEK_SECONDS {
            self.weekly_winning_amount = 0;
            self.weekly_reset_ts = now;
        }
    }

    /// Resets the monthly winnings window once a full month has elapsed;
    /// otherwise leaves the profile untouched.
    pub fn maybe_reset_monthly(&mut self, now: i64)
        requires
            old(self).wf(),
            now >= 0,
        ensures
            final(self).wf(),
            now - old(self).monthly_reset_ts >= MONTH_SECONDS ==> *final(self) == (UserAccount {
                monthly_winning_amount: 0,
                monthly_reset_ts: now,
                ..*old(self)
            }),
            now - old(self).monthly_reset_ts < MONTH_SECONDS ==> *final(self) == *old(self),
    {
        if now - self.monthly_reset_ts >= MONTH_SECONDS {
            self.monthly_winning_amount = 0;
            self.monthly_reset_ts = now;
        }
    }

    /// Credits the weekly reward when the profile is a demo account and a
    /// full week has passed since the last credit; reports whether it did.
    pub fn maybe_credit_weekly_reward(&mut self, now: i64) -> (credited: bool)
        requires
            old(self).wf(),
            now >= 0,
            (old(self).is_demo && now - old(self).last_weekly_reward_ts >= WEEK_SECONDS) ==> old(
                self,
            ).demo_balance + WEEKLY_REWARD_CENTS <= u64::MAX,
        ensures
            final(self).wf(),
            credited == (old(self).is_demo && now - old(self).last_weekly_reward_ts
                >= WEEK_SECONDS),
            credited ==> *final(self) == (UserAccount {
                demo_balance: (old(self).demo_balance + WEEKLY_REWARD_CENTS) as u64,
                last_weekly_reward_ts: now,
                ..*old(self)
            }),
            !credited ==> *final(self) == *old(self),
    {
        if self.is_demo && now - self.last_weekly_reward_ts >= WEEK_SECONDS {
            self.demo_balance = self.demo_balance + WEEKLY_REWARD_CENTS;
            self.last_weekly_reward_ts = now;
            true
        } else {
            false
        }
    }
}

/// The profile a signup creates: a demo account starts with the signup
/// bonus already credited and the bonus flag set; a real account starts
/// empty.
pub open spec fn initial_user(authority: AccountKey, is_demo: bool, now: i64) -> UserAccount {
    UserAccount {
        authority,
        is_demo,
        demo_balance: if is_demo {
            SIGNUP_BONUS_CENTS
        } else {
            0u64
        },
        real_balance: 0,
        signup_bonus_claimed: is_demo,
        last_weekly_reward_ts: if is_demo {
            now
        } else {
            0i64
        },
        total_votes: 0,
        total_wins: 0,
        total_losses: 0,
        total_winning_amount: 0,
        weekly_winning_amount: 0,
        monthly_winning_amount: 0,
        weekly_reset_ts: now,
        monthly_reset_ts: now,
        polls_created: 0,
        creator_earnings: 0,
        created_at: now,
        last_active_at: now,
    }
}

/// Creates a fresh profile.  A demo account starts with the signup bonus
/// already credited and the bonus flag set; a real account starts empty.
pub fn signup(authority: AccountKey, is_demo: bool, now: i64) -> (u: UserAccount)
    requires
        now >= 0,
    ensures
        u.wf(),
        u == initial_user(authority, is_demo, now),
{
    UserAccount {
        authority,
        is_demo,
        demo_balance: if is_demo {
            SIGNUP_BONUS_CENTS
        } else {
            0
        },
        real_balance: 0,
        signup_bonus_claimed: is_demo,
        last_weekly_reward_ts: if is_demo {
            now
        } else {
            0
        },
        total_votes: 0,
        total_wins: 0,
        total_losses: 0,
        total_winning_amount: 0,
        weekly_winning_amount: 0,
        monthly_winning_amount: 0,
        weekly_reset_ts: now,
        monthly_reset_ts: now,
        polls_created: 0,
        creator_earnings: 0,
        created_at: now,
        last_active_at: now,
    }
}

/// The reason a weekly-reward claim fails, if any.
pub open spec fn claim_weekly_error(user: UserAccount, now: i64) -> Option<UserError> {
    if !(user.is_demo && now - user.last_weekly_reward_ts >= WEEK_SECONDS) {
        Some(UserError::WeeklyRewardNotReady)
    } else if user.demo_balance + WEEKLY_REWARD_CENTS > u64::MAX {
        Some(UserError::Overflow)
    } else {
        None
    }
}

/// Claims the weekly reward: available to demo accounts once per elapsed
/// week.  Also rolls the weekly and monthly leaderboard windows and marks the
/// profile active.  On any error the profile is unchanged.
pub fn claim_weekly_reward(user: &mut UserAccount, now: i64) -> (r: Result<(), UserError>)
    requires
        old(user).wf(),
        now >= 0,
    ensures
        final(user).wf(),
        match r {
            Ok(()) => {
                &&& claim_weekly_error(*old(user), now) is None
                &&& *final(user) == (UserAccount {
                    demo_balance: (old(user).demo_balance + WEEKLY_REWARD_CENTS) as u64,
                    last_weekly_reward_ts: now,
                    last_active_at: now,
                    weekly_winning_amount: if now - old(user).weekly_reset_ts >= WEEK_SECONDS {
                        0u64
                    } else {
                        old(user).weekly_winning_amount
                    },
                    weekly_reset_ts: if now - old(user).weekly_reset_ts >= WEEK_SECONDS {
                        now
                    } else {
                        old(user).weekly_reset_ts
                    },
                    monthly_winning_amount: if now - old(user).monthly_reset_ts >= MONTH_SECONDS {
                        0u64
                    } else {
                        old(user).monthly_winning_amount
                    },
                    monthly_reset_ts: if now - old(user).monthly_reset_ts >= MONTH_SECONDS {
                        now
                    } else {
                        old(user).monthly_reset_ts
                    },
                    ..*old(user)
                })
            },
            Err(e) => {
                &&& claim_weekly_error(*old(user), now) == Some(e)
                &&& *final(user) == *old(user)
            },
        },
{
    if !(user.is_demo && now - user.last_weekly_reward_ts >= WEEK_SECONDS) {
        return Err(UserError::WeeklyRewardNotReady);
    }
    if user.demo_balance > u64::MAX - WEEKLY_REWARD_CENTS {
        return Err(UserError::Overflow);
    }
    user.last_active_at = now;
    user.maybe_reset_weekly(now);
    user.maybe_reset_monthly(now);
    let credited = user.maybe_credit_weekly_reward(now);
    if credited {
        Ok(())
    } else {
        Err(UserError::WeeklyRewardNotReady)
    }
}

/// The reason a debit fails, if any.
pub open spec fn debit_error(user: UserAccount, caller: ComponentId, amount: u64) -> Option<
    UserError,
> {
    if caller != ComponentId::VoteLedger {
        Some(UserError::UnauthorizedCaller)
    } else if amount == 0 {
        Some(UserError::InsufficientBalance)
    } else if user.demo_balance < amount {
        Some(UserError::InsufficientBalance)
    } else {
        None
    }
}

/// Privileged endpoint of the user ledger: debits the demo balance.  Only
/// the vote ledger is on the allow-list.  The balance can never go negative:
/// a short balance fails the whole call with the profile unchanged.
pub fn debit_balance(user: &mut UserAccount, caller: ComponentId, amount: u64) -> (r: Result<
    (),
    UserError,
>)
    ensures
        match r {
            Ok(()) => {
                &&& debit_error(*old(user), caller, amount) is None
                &&& *final(user) == (UserAccount {
                    demo_balance: (old(user).demo_balance - amount) as u64,
                    ..*old(user)
                })
            },
            Err(e) => {
                &&& debit_error(*old(user), caller, amount) == Some(e)
                &&& *final(user) == *old(user)
            },
        },
{
    if !(caller == ComponentId::VoteLedger) {
        return Err(UserError::UnauthorizedCaller);
    }
    if amount == 0 {
        return Err(UserError::InsufficientBalance);
    }
    if user.demo_balance < amount {
        return Err(UserError::InsufficientBalance);
    }
    user.demo_balance = user.demo_balance - amount;
    Ok(())
}

/// The reason a credit fails, if any.
pub open spec fn credit_error(user: UserAccount, caller: ComponentId, amount: u64) -> Option<
    UserError,
> {
    if caller != ComponentId::Settlement {
        Some(UserError::UnauthorizedCaller)
    } else if user.demo_balance + amount > u64::MAX {
        Some(UserError::Overflow)
    } else {
        None
    }
}

/// Privileged endpoint of the user ledger: credits a reward to the demo
/// balance and updates the winning stats (which saturate rather than fail).
/// Only the settlement component is on the allow-list.  Also rolls the
/// leaderboard windows and marks the profile active.  On any error the
/// profile is unchanged.
pub fn credit_balance(user: &mut UserAccount, caller: ComponentId, amount: u64, now: i64) -> (r:
    Result<(), UserError>)
    requires
        old(user).wf(),
        now >= 0,
    ensures
        final(user).wf(),
        match r {
            Ok(()) => {
                &&& credit_error(*old(user), caller, amount) is None
                &&& *final(user) == (UserAccount {
                    demo_balance: (old(user).demo_balance + amount) as u64,
                    total_wins: sat_add(old(user).total_wins, 1),
                    total_winning_amount: sat_add(old(user).total_winning_amount, amount),
                    weekly_winning_amount: if now - old(user).weekly_reset_ts >= WEEK_SECONDS {
                        0u64
                    } else {
                        sat_add(old(user).weekly_winning_amount, amount)
                    },
                    weekly_reset_ts: if now - old(user).weekly_reset_ts >= WEEK_SECONDS {
                        now
                    } else {
                        old(user).weekly_reset_ts
                    },
                    monthly_winning_amount: if now - old(user).monthly_reset_ts >= MONTH_SECONDS {
                        0u64
                    } else {
                        sat_add(old(user).monthly_winning_amount, amount)
                    },
                    monthly_reset_ts: if now - old(user).monthly_reset_ts >= MONTH_SECONDS {
                        now
                    } else {
                        old(user).monthly_reset_ts
                    },
                    last_active_at: now,
                    ..*old(user)
                })
            },
            Err(e) => {
                &&& credit_error(*old(user), caller, amount) == Some(e)
                &&& *final(user) == *old(user)
            },
        },
{
    if !(caller == ComponentId::Settlement) {
        return Err(UserError::UnauthorizedCaller);
    }
    if user.demo_balance > u64::MAX - amount {
        return Err(UserError::Overflow);
    }
    user.demo_balance = user.demo_balance + amount;
    user.total_wins = user.total_wins.saturating_add(1);
    user.total_winning_amount = user.total_winning_amount.saturating_add(amount);
    user.weekly_winning_amount = user.weekly_winning_amount.saturating_add(amount);
    user.monthly_winning_amount = user.monthly_winning_amount.saturating_add(amount);
    user.maybe_reset_weekly(now);
    user.maybe_reset_monthly(now);
    user.last_active_at = now;
    Ok(())
}

} // verus!

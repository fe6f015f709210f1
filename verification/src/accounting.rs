//! Ledger accounting: fee computation, pool escrow, and the pro-rata reward
//! formula, with the conservation law that claims can never pay out more than
//! the pool.
//!
//! All amounts are integers in a minor currency unit.  Running totals use
//! checked arithmetic; the reward division floors toward zero, and the
//! remainder left after all claims intentionally stays in escrow.

use vstd::prelude::*;

use crate::errors::PollError;
use vstd::arithmetic::div_mod::lemma_div_is_ordered;
use vstd::arithmetic::div_mod::lemma_div_multiples_vanish;
use vstd::arithmetic::div_mod::lemma_fundamental_div_mod;
use vstd::arithmetic::div_mod::lemma_mod_bound;
use vstd::arithmetic::mul::lemma_mul_inequality;
use vstd::arithmetic::mul::lemma_mul_is_distributive_add_other_way;
use vstd::arithmetic::mul::lemma_mul_nonnegative;
use vstd::arithmetic::mul::lemma_mul_upper_bound;

verus! {

/// Mathematical sum of a sequence of tallies.
pub open spec fn sum_u64(s: Seq<u64>) -> int
    decreases s.len(),
{
    if s.len() == 0 {
        0
    } else {
        s[0] + sum_u64(s.drop_first())
    }
}

/// The sum of tallies is never negative.
pub proof fn lemma_sum_nonneg(s: Seq<u64>)
    ensures
        sum_u64(s) >= 0,
    decreases s.len(),
{
    if s.len() > 0 {
        lemma_sum_nonneg(s.drop_first());
    }
}

/// Every element is bounded by the sum of the whole sequence.
pub proof fn lemma_sum_ge_element(s: Seq<u64>, i: int)
    requires
        0 <= i < s.len(),
    ensures
        s[i] <= sum_u64(s),
    decreases s.len(),
{
    lemma_sum_nonneg(s.drop_first());
    if i > 0 {
        lemma_sum_ge_element(s.drop_first(), i - 1);
    }
}

/// The sum is zero exactly when every tally is zero.
pub proof fn lemma_sum_zero_iff_all_zero(s: Seq<u64>)
    ensures
        sum_u64(s) == 0 <==> (forall|i: int| 0 <= i < s.len() ==> s[i] == 0),
    decreases s.len(),
{
    if s.len() > 0 {
        let rest = s.drop_first();
        lemma_sum_zero_iff_all_zero(rest);
        lemma_sum_nonneg(rest);
        if sum_u64(s) == 0 {
            assert forall|i: int| 0 <= i < s.len() implies s[i] == 0 by {
                if i > 0 {
                    assert(rest[i - 1] == s[i]);
                }
            }
        }
        if forall|i: int| 0 <= i < s.len() ==> s[i] == 0 {
            assert forall|i: int| 0 <= i < rest.len() implies rest[i] == 0 by {
                assert(s[i + 1] == 0);
                assert(rest[i] == s[i + 1]);
            }
        }
    }
}

/// Replacing one tally changes the sum by the difference of the entries.
pub proof fn lemma_sum_update(s: Seq<u64>, k: int, v: u64)
    requires
        0 <= k < s.len(),
    ensures
        sum_u64(s.update(k, v)) == sum_u64(s) - s[k] + v,
    decreases s.len(),
{
    if k == 0 {
        assert(s.update(0, v).drop_first() =~= s.drop_first());
    } else {
        assert(s.update(k, v).drop_first() =~= s.drop_first().update(k - 1, v));
        lemma_sum_update(s.drop_first(), k - 1, v);
    }
}

/// The platform fee and the creator reward at poll creation: one percent of
/// the investment, but at least one unit.
pub open spec fn spec_creation_fee(investment: u64) -> int {
    if investment / 100 >= 1 {
        investment as int / 100
    } else {
        1
    }
}

/// Whether the investment can cover both creation fees.
pub open spec fn fees_covered(investment: u64) -> bool {
    2 * spec_creation_fee(investment) <= investment
}

/// The pool seed left once both creation fees are carved out.
pub open spec fn spec_pool_seed(investment: u64) -> int {
    investment - 2 * spec_creation_fee(investment)
}

/// The fees carved out of a creator's investment and the remaining pool seed.
#[derive(Clone, Copy, PartialEq, Eq, Structural, Debug)]
pub struct FeeBreakdown {
    /// Platform fee, kept by the platform.
    pub platform_fee: u64,
    /// Creator reward, reserved and paid at settlement.
    pub creator_reward: u64,
    /// The rest of the investment, seeding the distributable pool.
    pub pool_seed: u64,
}

/// Splits a creator's investment into the platform fee, the creator reward
/// and the pool seed.  Fails only when the investment cannot cover the two
/// fees, which the minimum fee of one unit makes possible for a pathological
/// investment of a single unit.
pub fn compute_fees(investment: u64) -> (r: Result<FeeBreakdown, PollError>)
    ensures
        match r {
            Ok(f) => fees_covered(investment) && f.platform_fee == spec_creation_fee(investment)
                && f.creator_reward == spec_creation_fee(investment) && f.pool_seed
                == spec_pool_seed(investment),
            Err(e) => !fees_covered(investment) && e == PollError::Overflow,
        },
{
    let raw: u64 = investment / 100;
    let fee: u64 = if raw >= 1 {
        raw
    } else {
        1
    };
    assert(fee <= u64::MAX / 2) by {
        lemma_div_is_ordered(investment as int, u64::MAX as int, 100);
    }
    if fee + fee <= investment {
        Ok(FeeBreakdown {
            platform_fee: fee,
            creator_reward: fee,
            pool_seed: investment - fee - fee,
        })
    } else {
        Err(PollError::Overflow)
    }
}

/// A winning voter's pro-rata share of the pool: the division floors toward
/// zero.
pub open spec fn spec_reward(user_votes: u64, pool: u64, total_votes: u64) -> int
    recommends
        total_votes > 0,
{
    (user_votes * pool) / (total_votes as int)
}

/// One claimer's reward never exceeds the pool.
pub proof fn lemma_reward_le_pool(user_votes: u64, pool: u64, total_votes: u64)
    requires
        0 < total_votes,
        user_votes <= total_votes,
    ensures
        0 <= spec_reward(user_votes, pool, total_votes) <= pool,
{
    lemma_mul_nonnegative(user_votes as int, pool as int);
    vstd::arithmetic::div_mod::lemma_div_pos_is_pos(user_votes * pool, total_votes as int);
    lemma_mul_inequality(user_votes as int, total_votes as int, pool as int);
    lemma_div_is_ordered(user_votes * pool, total_votes * pool, total_votes as int);
    lemma_div_multiples_vanish(pool as int, total_votes as int);
}

/// Computes a winning voter's reward in a widened integer type, so the
/// product cannot overflow.
pub fn compute_reward(user_votes: u64, pool: u64, total_votes: u64) -> (r: u64)
    requires
        0 < total_votes,
        user_votes <= total_votes,
    ensures
        r == spec_reward(user_votes, pool, total_votes),
        r <= pool,
{
    proof {
        lemma_mul_upper_bound(user_votes as int, u64::MAX as int, pool as int, u64::MAX as int);
        lemma_reward_le_pool(user_votes, pool, total_votes);
    }
    let wide: u128 = (user_votes as u128) * (pool as u128);
    let quotient: u128 = wide / (total_votes as u128);
    quotient as u64
}

/// Floored division distributes over addition with a loss of at most the
/// divisor: the sum of two floors is bounded by the floor of the sum.
pub proof fn lemma_div_add_floor(a: int, b: int, d: int)
    requires
        0 <= a,
        0 <= b,
        0 < d,
    ensures
        a / d + b / d <= (a + b) / d,
{
    lemma_fundamental_div_mod(a, d);
    lemma_fundamental_div_mod(b, d);
    lemma_fundamental_div_mod(a + b, d);
    lemma_mod_bound(a, d);
    lemma_mod_bound(b, d);
    lemma_mod_bound(a + b, d);
    let q: int = (a + b) / d - a / d - b / d;
    assert(d * q == a % d + b % d - (a + b) % d) by (nonlinear_arith)
        requires
            q == (a + b) / d - a / d - b / d,
            a == d * (a / d) + a % d,
            b == d * (b / d) + b % d,
            a + b == d * ((a + b) / d) + (a + b) % d,
    ;
    if q < 0 {
        assert(d * q <= d * -1) by (nonlinear_arith)
            requires
                q <= -1,
                0 < d,
        ;
    }
}

/// The total reward paid to a set of claimers, each holding the given number
/// of winning votes.
pub open spec fn sum_rewards(shares: Seq<u64>, pool: u64, total_votes: u64) -> int
    decreases shares.len(),
{
    if shares.len() == 0 {
        0
    } else {
        spec_reward(shares[0], pool, total_votes) + sum_rewards(
            shares.drop_first(),
            pool,
            total_votes,
        )
    }
}

/// The total reward is bounded by the floor of the pooled share.
proof fn lemma_sum_rewards_le_pooled(shares: Seq<u64>, pool: u64, total_votes: u64)
    requires
        0 < total_votes,
    ensures
        0 <= sum_rewards(shares, pool, total_votes) <= (sum_u64(shares) * pool) / (
        total_votes as int),
    decreases shares.len(),
{
    let t: int = total_votes as int;
    if shares.len() == 0 {
        assert((0 * pool) / t == 0) by {
            lemma_div_multiples_vanish(0, t);
        }
    } else {
        let rest = shares.drop_first();
        lemma_sum_rewards_le_pooled(rest, pool, total_votes);
        lemma_sum_nonneg(rest);
        lemma_mul_nonnegative(shares[0] as int, pool as int);
        lemma_mul_nonnegative(sum_u64(rest), pool as int);
        lemma_div_add_floor(shares[0] * pool, sum_u64(rest) * pool, t);
        assert((shares[0] + sum_u64(rest)) * pool == shares[0] * pool + sum_u64(rest) * pool) by {
            lemma_mul_is_distributive_add_other_way(pool as int, shares[0] as int, sum_u64(rest));
        }
        vstd::arithmetic::div_mod::lemma_div_pos_is_pos(shares[0] * pool, t);
    }
}

/// Conservation of the pool: however the winning option's tally is split
/// among claimers, the computed rewards together never exceed the pool.
/// Equality can miss only by the integer-division remainder, which stays in
/// escrow.
pub proof fn lemma_rewards_conserve_pool(shares: Seq<u64>, pool: u64, total_votes: u64)
    requires
        0 < total_votes,
        sum_u64(shares) <= total_votes,
    ensures
        0 <= sum_rewards(shares, pool, total_votes) <= pool,
{
    let t: int = total_votes as int;
    lemma_sum_rewards_le_pooled(shares, pool, total_votes);
    lemma_sum_nonneg(shares);
    lemma_mul_inequality(sum_u64(shares), t, pool as int);
    lemma_div_is_ordered(sum_u64(shares) * pool, t * pool, t);
    lemma_div_multiples_vanish(pool as int, t);
}

/// A value-holding escrow scoped to one poll.  The spendable balance funds
/// payouts; the reserved minimum (a storage deposit) is never spendable.
#[derive(Clone, Copy, PartialEq, Eq, Structural, Debug)]
pub struct Escrow {
    /// Balance available for payouts.
    pub spendable: u64,
    /// Reserved minimum that can never be paid out.
    pub reserved: u64,
}

impl Escrow {
    /// A fresh escrow holding only its reserved minimum.
    pub fn new(reserved: u64) -> (e: Escrow)
        ensures
            e.spendable == 0,
            e.reserved == reserved,
    {
        Escrow { spendable: 0, reserved }
    }

    /// Credits the escrow.  Either the full amount arrives or, on overflow,
    /// nothing changes.
    pub fn deposit(&mut self, amount: u64) -> (ok: bool)
        ensures
            ok <==> old(self).spendable + amount <= u64::MAX,
            ok ==> *final(self) == (Escrow { spendable: (old(self).spendable + amount) as u64, ..*old(self) }),
            !ok ==> *final(self) == *old(self),
    {
        if amount <= u64::MAX - self.spendable {
            self.spendable = self.spendable + amount;
            true
        } else {
            false
        }
    }

    /// Debits the escrow.  Either the full amount leaves or, when the
    /// spendable balance is short, nothing changes.
    pub fn withdraw(&mut self, amount: u64) -> (ok: bool)
        ensures
            ok <==> amount <= old(self).spendable,
            ok ==> *final(self) == (Escrow { spendable: (old(self).spendable - amount) as u64, ..*old(self) }),
            !ok ==> *final(self) == *old(self),
    {
        if amount <= self.spendable {
            self.spendable = self.spendable - amount;
            true
        } else {
            false
        }
    }
}

} // verus!

//! The vote ledger: per-(poll, voter) vote records and vote casting.
//!
//! A vote record is created lazily on a voter's first vote in a poll and
//! never deleted.  Casting a vote debits the voter's balance, moves the cost
//! into the poll's escrow, and records the coins both on the poll's tallies
//! (through the poll ledger's allow-listed endpoint) and on the voter's own
//! record.  The consistency law ties the two ledgers together: the poll's
//! tally of every option equals the sum of all vote records' entries for it.

use vstd::prelude::*;

use crate::accounting::Escrow;
use crate::errors::PollError;
use crate::errors::VoteError;
use crate::keys::AccountKey;
use crate::keys::ComponentId;
use crate::poll::PollAccount;
use crate::poll::PollStatus;
use crate::poll::record_vote;
use crate::poll::record_vote_error;
use crate::user::UserAccount;
use crate::user::debit_balance;
use crate::user::debit_error;
use vstd::arithmetic::mul::lemma_mul_ordering;

verus! {

/// A voter's record for one poll: unique per (poll, voter) pair.
#[derive(Debug)]
pub struct VoteAccount {
    /// The poll this record belongs to (its storage key).
    pub poll: AccountKey,
    /// The voter's key.
    pub voter: AccountKey,
    /// Coins bought per option, parallel to the poll's options.
    pub votes_per_option: Vec<u64>,
    /// Total cents this voter has staked in this poll.
    pub total_staked_cents: u64,
    /// Whether the reward was claimed; one-way false to true.
    pub claimed: bool,
    /// The reward credited when claimed.
    pub reward_amount: u64,
}

impl VoteAccount {
    /// A blank record slot, as storage hands it out before the first vote:
    /// the zero voter key marks it untouched.
    pub fn blank() -> (v: VoteAccount)
        ensures
            v.voter.is_zero(),
            v.poll.is_zero(),
            v.votes_per_option@.len() == 0,
            v.total_staked_cents == 0,
            !v.claimed,
            v.reward_amount == 0,
    {
        VoteAccount {
            poll: AccountKey::zero(),
            voter: AccountKey::zero(),
            votes_per_option: Vec::new(),
            total_staked_cents: 0,
            claimed: false,
            reward_amount: 0,
        }
    }
}

/// The coins a record holds on option `i`; zero outside the record's range,
/// so a blank record holds no votes anywhere.
pub open spec fn votes_of(v: VoteAccount, i: int) -> int {
    if 0 <= i < v.votes_per_option@.len() {
        v.votes_per_option@[i] as int
    } else {
        0
    }
}

/// The total coins that a set of vote records holds on option `i`.
pub open spec fn option_tally(records: Seq<VoteAccount>, i: int) -> int
    decreases records.len(),
{
    if records.len() == 0 {
        0
    } else {
        votes_of(records[0], i) + option_tally(records.drop_first(), i)
    }
}

/// A poll agrees with a set of vote records when every tally equals the sum
/// of the records' entries for that option.
pub open spec fn tallies_consistent(poll: PollAccount, records: Seq<VoteAccount>) -> bool {
    forall|i: int|
        0 <= i < poll.vote_counts@.len() ==> poll.vote_counts@[i] == option_tally(records, i)
}

/// Replacing one record changes an option's tally by the difference of that
/// record's entries.
proof fn lemma_option_tally_update(records: Seq<VoteAccount>, k: int, v: VoteAccount, i: int)
    requires
        0 <= k < records.len(),
    ensures
        option_tally(records.update(k, v), i) == option_tally(records, i) - votes_of(
            records[k],
            i,
        ) + votes_of(v, i),
    decreases records.len(),
{
    if k == 0 {
        assert(records.update(0, v).drop_first() =~= records.drop_first());
    } else {
        assert(records.update(k, v).drop_first() =~= records.drop_first().update(k - 1, v));
        lemma_option_tally_update(records.drop_first(), k - 1, v, i);
    }
}

/// Appending a record adds its entries to every option's tally.
proof fn lemma_option_tally_push(records: Seq<VoteAccount>, v: VoteAccount, i: int)
    ensures
        option_tally(records.push(v), i) == option_tally(records, i) + votes_of(v, i),
    decreases records.len(),
{
    if records.len() == 0 {
        assert(records.push(v)[0] == v);
        assert(records.push(v).drop_first() =~= Seq::<VoteAccount>::empty());
        assert(option_tally(records.push(v), i) == votes_of(v, i) + option_tally(
            Seq::<VoteAccount>::empty(),
            i,
        ));
        assert(option_tally(Seq::<VoteAccount>::empty(), i) == 0);
    } else {
        assert(records.push(v)[0] == records[0]);
        assert(records.push(v).drop_first() =~= records.drop_first().push(v));
        lemma_option_tally_push(records.drop_first(), v, i);
        assert(option_tally(records.push(v), i) == votes_of(records[0], i) + option_tally(
            records.drop_first().push(v),
            i,
        ));
    }
}

/// A poll whose tallies are all zero agrees with the empty set of records:
/// the consistency law's base case, established at creation.
pub proof fn lemma_fresh_poll_consistent(poll: PollAccount)
    requires
        forall|i: int| 0 <= i < poll.vote_counts@.len() ==> poll.vote_counts@[i] == 0,
    ensures
        tallies_consistent(poll, Seq::<VoteAccount>::empty()),
{
}

/// Consistency is preserved when an existing voter casts again: the poll
/// gains `num_coins` on one option and that voter's record gains the same.
pub proof fn lemma_cast_preserves_consistency_update(
    p0: PollAccount,
    p1: PollAccount,
    records: Seq<VoteAccount>,
    k: int,
    v1: VoteAccount,
    option_index: int,
    num_coins: u64,
)
    requires
        tallies_consistent(p0, records),
        0 <= k < records.len(),
        0 <= option_index < p0.vote_counts@.len(),
        p0.vote_counts@[option_index] + num_coins <= u64::MAX,
        p1.vote_counts@ == p0.vote_counts@.update(
            option_index,
            (p0.vote_counts@[option_index] + num_coins) as u64,
        ),
        forall|i: int|
            #[trigger] votes_of(v1, i) == votes_of(records[k], i) + (if i == option_index {
                num_coins as int
            } else {
                0
            }),
    ensures
        tallies_consistent(p1, records.update(k, v1)),
{
    assert forall|i: int|
        0 <= i < p1.vote_counts@.len() implies p1.vote_counts@[i] == option_tally(
        records.update(k, v1),
        i,
    ) by {
        lemma_option_tally_update(records, k, v1, i);
        assert(votes_of(v1, i) == votes_of(records[k], i) + (if i == option_index {
            num_coins as int
        } else {
            0
        }));
    }
}

/// Consistency is preserved when a new voter joins: the poll gains
/// `num_coins` on one option and the new record holds exactly those coins.
pub proof fn lemma_cast_preserves_consistency_new(
    p0: PollAccount,
    p1: PollAccount,
    records: Seq<VoteAccount>,
    v1: VoteAccount,
    option_index: int,
    num_coins: u64,
)
    requires
        tallies_consistent(p0, records),
        0 <= option_index < p0.vote_counts@.len(),
        p0.vote_counts@[option_index] + num_coins <= u64::MAX,
        p1.vote_counts@ == p0.vote_counts@.update(
            option_index,
            (p0.vote_counts@[option_index] + num_coins) as u64,
        ),
        forall|i: int|
            #[trigger] votes_of(v1, i) == if i == option_index {
                num_coins as int
            } else {
                0
            },
    ensures
        tallies_consistent(p1, records.push(v1)),
{
    assert forall|i: int|
        0 <= i < p1.vote_counts@.len() implies p1.vote_counts@[i] == option_tally(
        records.push(v1),
        i,
    ) by {
        lemma_option_tally_push(records, v1, i);
        assert(votes_of(v1, i) == if i == option_index {
            num_coins as int
        } else {
            0
        });
    }
}

/// Whether a vote record slot may stand for (`poll_key`, `voter`) against
/// `poll`: either still blank, or already bound to that pair with entries
/// parallel to the poll's options.
pub open spec fn vote_slot_valid(
    vote: VoteAccount,
    poll: PollAccount,
    poll_key: AccountKey,
    voter: AccountKey,
) -> bool {
    if vote.voter.is_zero() {
        &&& vote.votes_per_option@.len() == 0
        &&& vote.total_staked_cents == 0
        &&& !vote.claimed
        &&& vote.reward_amount == 0
    } else {
        &&& vote.voter == voter
        &&& vote.poll == poll_key
        &&& vote.votes_per_option@.len() == poll.options@.len()
    }
}

/// The first guard that casting a vote violates, given the voter's prior
/// coins on the chosen option and prior stake (both zero for a first-time
/// voter).
pub open spec fn cast_vote_error_at(
    poll: PollAccount,
    prior_coins: int,
    prior_staked: u64,
    user: UserAccount,
    escrow: Escrow,
    voter: AccountKey,
    option_index: u8,
    num_coins: u64,
    now: i64,
) -> Option<VoteError> {
    let cost = num_coins * poll.unit_price_cents;
    if poll.status != PollStatus::Active {
        Some(VoteError::PollNotActive)
    } else if now >= poll.end_time {
        Some(VoteError::PollEnded)
    } else if poll.options@.len() <= option_index as int {
        Some(VoteError::InvalidOption)
    } else if num_coins == 0 {
        Some(VoteError::ZeroCoins)
    } else if voter == poll.creator {
        Some(VoteError::CreatorCannotVote)
    } else if num_coins * poll.unit_price_cents > u64::MAX {
        Some(VoteError::Overflow)
    } else if user.demo_balance < cost {
        Some(VoteError::InsufficientFunds)
    } else if poll.vote_counts@[option_index as int] + num_coins > u64::MAX {
        Some(VoteError::Overflow)
    } else if poll.total_pool_cents + cost > u64::MAX {
        Some(VoteError::Overflow)
    } else if prior_coins + num_coins > u64::MAX {
        Some(VoteError::Overflow)
    } else if prior_staked + cost > u64::MAX {
        Some(VoteError::Overflow)
    } else if user.total_votes + num_coins > u64::MAX {
        Some(VoteError::Overflow)
    } else if escrow.spendable + cost > u64::MAX {
        Some(VoteError::Overflow)
    } else {
        None
    }
}

/// The first guard that casting a vote violates, if any.
pub open spec fn cast_vote_error(
    poll: PollAccount,
    vote: VoteAccount,
    user: UserAccount,
    escrow: Escrow,
    voter: AccountKey,
    option_index: u8,
    num_coins: u64,
    now: i64,
) -> Option<VoteError> {
    cast_vote_error_at(
        poll,
        votes_of(vote, option_index as int),
        vote.total_staked_cents,
        user,
        escrow,
        voter,
        option_index,
        num_coins,
        now,
    )
}

/// Buys `num_coins` option coins on a poll.  The cost, `num_coins` times the
/// unit price under checked multiplication, moves from the voter's balance
/// into the poll's escrow; the poll's tally and pool grow through the poll
/// ledger's allow-listed endpoint; the voter's record is bound on first use
/// and updated; the voter's lifetime coin counter grows.  The creator cannot
/// vote on their own poll.  On any error nothing changes anywhere.
///
/// Returns the cost on success.
pub fn cast_vote(
    poll: &mut PollAccount,
    vote: &mut VoteAccount,
    user: &mut UserAccount,
    escrow: &mut Escrow,
    poll_key: AccountKey,
    voter: AccountKey,
    option_index: u8,
    num_coins: u64,
    now: i64,
) -> (r: Result<u64, VoteError>)
    requires
        old(poll).wf(),
        vote_slot_valid(*old(vote), *old(poll), poll_key, voter),
        old(user).authority == voter,
        !voter.is_zero(),
    ensures
        final(poll).wf(),
        vote_slot_valid(*final(vote), *final(poll), poll_key, voter),
        match r {
            Ok(cost) => {
                &&& cast_vote_error(
                    *old(poll),
                    *old(vote),
                    *old(user),
                    *old(escrow),
                    voter,
                    option_index,
                    num_coins,
                    now,
                ) is None
                &&& cost == num_coins * old(poll).unit_price_cents
                &&& crate::poll::fixed_fields_eq(*final(poll), *old(poll))
                &&& final(poll).status == old(poll).status
                &&& final(poll).winning_option == old(poll).winning_option
                &&& final(poll).vote_counts@ == old(poll).vote_counts@.update(
                    option_index as int,
                    (old(poll).vote_counts@[option_index as int] + num_coins) as u64,
                )
                &&& final(poll).total_pool_cents == old(poll).total_pool_cents + cost
                &&& final(poll).total_voters == (if old(vote).voter.is_zero() && old(
                    poll,
                ).total_voters < u32::MAX {
                    old(poll).total_voters + 1
                } else {
                    old(poll).total_voters as int
                })
                &&& final(vote).poll == poll_key
                &&& final(vote).voter == voter
                &&& final(vote).votes_per_option@.len() == old(poll).options@.len()
                &&& forall|i: int|
                    #[trigger] votes_of(*final(vote), i) == votes_of(*old(vote), i) + (if i
                        == option_index as int {
                        num_coins as int
                    } else {
                        0
                    })
                &&& final(vote).total_staked_cents == old(vote).total_staked_cents + cost
                &&& final(vote).claimed == old(vote).claimed
                &&& final(vote).reward_amount == old(vote).reward_amount
                &&& *final(user) == (UserAccount {
                    demo_balance: (old(user).demo_balance - cost) as u64,
                    total_votes: (old(user).total_votes + num_coins) as u64,
                    ..*old(user)
                })
                &&& *final(escrow) == (Escrow {
                    spendable: (old(escrow).spendable + cost) as u64,
                    ..*old(escrow)
                })
            },
            Err(e) => {
                &&& cast_vote_error(
                    *old(poll),
                    *old(vote),
                    *old(user),
                    *old(escrow),
                    voter,
                    option_index,
                    num_coins,
                    now,
                ) == Some(e)
                &&& *final(poll) == *old(poll)
                &&& *final(vote) == *old(vote)
                &&& *final(user) == *old(user)
                &&& *final(escrow) == *old(escrow)
            },
        },
{
    if !poll.is_active() {
        return Err(VoteError::PollNotActive);
    }
    if poll.is_ended(now) {
        return Err(VoteError::PollEnded);
    }
    let idx: usize = option_index as usize;
    if idx >= poll.options.len() {
        return Err(VoteError::InvalidOption);
    }
    if num_coins == 0 {
        return Err(VoteError::ZeroCoins);
    }
    if voter == poll.creator {
        return Err(VoteError::CreatorCannotVote);
    }
    let cost: u64 = match num_coins.checked_mul(poll.unit_price_cents) {
        Some(c) => c,
        None => {
            return Err(VoteError::Overflow);
        },
    };
    if user.demo_balance < cost {
        return Err(VoteError::InsufficientFunds);
    }
    let tally: u64 = poll.vote_counts[idx];
    if num_coins > u64::MAX - tally {
        return Err(VoteError::Overflow);
    }
    if cost > u64::MAX - poll.total_pool_cents {
        return Err(VoteError::Overflow);
    }
    let is_new_voter: bool = vote.voter.is_unset();
    let prior_coins: u64 = if is_new_voter {
        0
    } else {
        vote.votes_per_option[idx]
    };
    if num_coins > u64::MAX - prior_coins {
        return Err(VoteError::Overflow);
    }
    if cost > u64::MAX - vote.total_staked_cents {
        return Err(VoteError::Overflow);
    }
    if num_coins > u64::MAX - user.total_votes {
        return Err(VoteError::Overflow);
    }
    if cost > u64::MAX - escrow.spendable {
        return Err(VoteError::Overflow);
    }
    proof {
        lemma_mul_ordering(num_coins as int, poll.unit_price_cents as int);
    }
    // Every guard holds: from here on each step is proven to succeed, so the
    // whole operation applies as one atomic unit.
    match debit_balance(user, ComponentId::VoteLedger, cost) {
        Ok(()) => {},
        Err(_) => {
            assert(debit_error(*user, ComponentId::VoteLedger, cost) is None);
            assert(false);
            return Err(VoteError::InsufficientFunds);
        },
    }
    if is_new_voter {
        vote.poll = poll_key;
        vote.voter = voter;
        let n: usize = poll.options.len();
        let mut per_option: Vec<u64> = Vec::new();
        let mut i: usize = 0;
        while i < n
            invariant
                i <= n,
                per_option@.len() == i,
                forall|j: int| 0 <= j < i ==> per_option@[j] == 0,
            decreases n - i,
        {
            per_option.push(0);
            i = i + 1;
        }
        vote.votes_per_option = per_option;
        vote.total_staked_cents = 0;
        vote.claimed = false;
        vote.reward_amount = 0;
    }
    match record_vote(poll, ComponentId::VoteLedger, option_index, num_coins, cost, is_new_voter) {
        Ok(()) => {},
        Err(_) => {
            assert(false);
            return Err(VoteError::Overflow);
        },
    }
    let updated: u64 = prior_coins + num_coins;
    vote.votes_per_option.set(idx, updated);
    vote.total_staked_cents = vote.total_staked_cents + cost;
    user.total_votes = user.total_votes + num_coins;
    let deposited = escrow.deposit(cost);
    assert(deposited);
    Ok(cost)
}

/// The first guard that marking a record claimed violates, if any.
pub open spec fn mark_claimed_error(vote: VoteAccount, caller: ComponentId) -> Option<VoteError> {
    if caller != ComponentId::Settlement {
        Some(VoteError::UnauthorizedCaller)
    } else if vote.claimed {
        Some(VoteError::AlreadyClaimed)
    } else {
        None
    }
}

/// Privileged endpoint of the vote ledger: marks a record claimed and stores
/// the reward that was paid.  Only the settlement component is on the
/// allow-list.  The claimed flag is one-way: a record already claimed fails,
/// unchanged, so a reward can never be paid twice.
pub fn mark_claimed(vote: &mut VoteAccount, caller: ComponentId, reward_amount: u64) -> (r: Result<
    (),
    VoteError,
>)
    ensures
        match r {
            Ok(()) => {
                &&& mark_claimed_error(*old(vote), caller) is None
                &&& *final(vote) == (VoteAccount { claimed: true, reward_amount, ..*old(vote) })
            },
            Err(e) => {
                &&& mark_claimed_error(*old(vote), caller) == Some(e)
                &&& *final(vote) == *old(vote)
            },
        },
{
    if !(caller == ComponentId::Settlement) {
        return Err(VoteError::UnauthorizedCaller);
    }
    if vote.claimed {
        return Err(VoteError::AlreadyClaimed);
    }
    vote.claimed = true;
    vote.reward_amount = reward_amount;
    Ok(())
}

} // verus!

//! Settlement: winner selection after a poll ends, and pro-rata reward
//! claims for winning voters.
//!
//! Settlement is permissionless: anyone may crank it once the end time has
//! passed.  The winner is the option with the most coins, ties going to the
//! lower index; a poll with no votes settles without a winner and refunds the
//! whole escrow to the creator.  Claiming pays each winning voter
//! `floor(user_winning_votes * total_pool / total_winning_votes)` out of
//! escrow, marks the vote record claimed (the idempotency gate) and credits
//! the claimer's balance, all through the owning components' allow-listed
//! endpoints.

use vstd::prelude::*;

use crate::accounting::Escrow;
use crate::accounting::compute_reward;
use crate::accounting::lemma_sum_zero_iff_all_zero;
use crate::accounting::spec_reward;
use crate::accounting::sum_u64;
use crate::errors::SettlementError;
use crate::keys::ComponentId;
use crate::poll::PollAccount;
use crate::poll::PollStatus;
use crate::poll::fixed_fields_eq;
use crate::poll::settle_poll_cpi;
use crate::user::UserAccount;
use crate::user::credit_balance;
use crate::vote::VoteAccount;
use crate::vote::mark_claimed;
use crate::vote::votes_of;

verus! {

/// Index `w` wins over `counts`: it holds a positive tally that no option
/// exceeds, and every earlier option holds strictly less — so `w` is the
/// lowest index achieving the maximum.
pub open spec fn is_winning_index(counts: Seq<u64>, w: int) -> bool {
    &&& 0 <= w < counts.len()
    &&& counts[w] > 0
    &&& forall|j: int| 0 <= j < counts.len() ==> counts[j] <= counts[w]
    &&& forall|j: int| 0 <= j < w ==> counts[j] < counts[w]
}

/// The running state of the winner scan: after `i` options, either nothing
/// beat zero yet, or `best` is the lowest index achieving the maximum so far.
spec fn winner_scan_inv(counts: Seq<u64>, best: Option<u8>, max_votes: u64, i: int) -> bool {
    match best {
        None => max_votes == 0 && (forall|j: int| 0 <= j < i ==> counts[j] == 0),
        Some(w) => {
            &&& 0 <= (w as int) && (w as int) < i
            &&& max_votes == counts[w as int]
            &&& max_votes > 0
            &&& forall|j: int| 0 <= j < i ==> counts[j] <= max_votes
            &&& forall|j: int| 0 <= j < w as int ==> counts[j] < max_votes
        },
    }
}

/// Scans the tallies left to right and returns the lowest index achieving
/// the maximum, or nothing when every tally is zero.
pub fn select_winner(vote_counts: &Vec<u64>) -> (r: Option<u8>)
    requires
        vote_counts@.len() < 256,
    ensures
        r is None <==> sum_u64(vote_counts@) == 0,
        r matches Some(w) ==> is_winning_index(vote_counts@, w as int),
{
    let n: usize = vote_counts.len();
    let mut best: Option<u8> = None;
    let mut max_votes: u64 = 0;
    let mut i: usize = 0;
    while i < n
        invariant
            i <= n,
            n == vote_counts@.len(),
            n < 256,
            winner_scan_inv(vote_counts@, best, max_votes, i as int),
        decreases n - i,
    {
        if vote_counts[i] > max_votes {
            max_votes = vote_counts[i];
            best = Some(i as u8);
        }
        i = i + 1;
    }
    proof {
        lemma_sum_zero_iff_all_zero(vote_counts@);
        if best is Some {
            crate::accounting::lemma_sum_ge_element(vote_counts@, best->0 as int);
        }
    }
    best
}

/// The first guard that settlement violates, if any.
pub open spec fn settle_error(poll: PollAccount, escrow: Escrow, now: i64) -> Option<
    SettlementError,
> {
    if poll.status == PollStatus::Settled {
        Some(SettlementError::AlreadySettled)
    } else if poll.status != PollStatus::Active {
        Some(SettlementError::PollNotActive)
    } else if now < poll.end_time {
        Some(SettlementError::PollNotEnded)
    } else if sum_u64(poll.vote_counts@) != 0 && escrow.spendable < poll.creator_reward_cents {
        Some(SettlementError::InsufficientEscrow)
    } else {
        None
    }
}

/// Settles a poll after its end time; any caller may crank this.
///
/// The winning option becomes the lowest index achieving the maximum tally,
/// or stays unset exactly when every tally is zero.  With votes, the creator
/// reward is paid out of escrow; without votes, the whole remaining escrow is
/// refunded and no creator reward is paid.  Returns the amount paid to the
/// creator either way.
///
/// The flip of `status` is the sole guard against double settlement: a
/// second call finds the poll settled, fails with `AlreadySettled`, and
/// changes nothing.
pub fn settle_poll(poll: &mut PollAccount, escrow: &mut Escrow, now: i64) -> (r: Result<
    u64,
    SettlementError,
>)
    requires
        old(poll).wf(),
    ensures
        final(poll).wf(),
        match r {
            Ok(creator_payout) => {
                &&& settle_error(*old(poll), *old(escrow), now) is None
                &&& fixed_fields_eq(*final(poll), *old(poll))
                &&& final(poll).vote_counts == old(poll).vote_counts
                &&& final(poll).total_pool_cents == old(poll).total_pool_cents
                &&& final(poll).total_voters == old(poll).total_voters
                &&& final(poll).status == PollStatus::Settled
                &&& (final(poll).winning_option is None <==> sum_u64(old(poll).vote_counts@) == 0)
                &&& (final(poll).winning_option matches Some(w) ==> is_winning_index(
                    old(poll).vote_counts@,
                    w as int,
                ))
                &&& (sum_u64(old(poll).vote_counts@) == 0 ==> creator_payout == old(
                    escrow,
                ).spendable)
                &&& (sum_u64(old(poll).vote_counts@) != 0 ==> creator_payout == old(
                    poll,
                ).creator_reward_cents)
                &&& *final(escrow) == (Escrow {
                    spendable: (old(escrow).spendable - creator_payout) as u64,
                    ..*old(escrow)
                })
            },
            Err(e) => {
                &&& settle_error(*old(poll), *old(escrow), now) == Some(e)
                &&& *final(poll) == *old(poll)
                &&& *final(escrow) == *old(escrow)
            },
        },
{
    if poll.status == PollStatus::Settled {
        return Err(SettlementError::AlreadySettled);
    }
    if !poll.is_active() {
        return Err(SettlementError::PollNotActive);
    }
    if !poll.is_ended(now) {
        return Err(SettlementError::PollNotEnded);
    }
    let winner: Option<u8> = select_winner(&poll.vote_counts);
    let creator_payout: u64 = match winner {
        None => escrow.spendable,
        Some(_) => {
            if escrow.spendable < poll.creator_reward_cents {
                return Err(SettlementError::InsufficientEscrow);
            }
            poll.creator_reward_cents
        },
    };
    let withdrawn = escrow.withdraw(creator_payout);
    assert(withdrawn);
    match settle_poll_cpi(poll, ComponentId::Settlement, winner, now) {
        Ok(()) => Ok(creator_payout),
        Err(_) => {
            assert(false);
            Err(SettlementError::PollNotActive)
        },
    }
}

/// Settlement is idempotent: a successful settlement leaves the poll
/// settled, and on a settled poll the only possible outcome of another
/// settlement, at any later time and whatever the escrow holds, is the
/// `AlreadySettled` error — under which `settle_poll` leaves every entity
/// unchanged.
pub proof fn lemma_settle_idempotent(settled: PollAccount, escrow: Escrow, later: i64)
    requires
        settled.status == PollStatus::Settled,
    ensures
        settle_error(settled, escrow, later) == Some(SettlementError::AlreadySettled),
{
}

/// The first guard that a claim violates, if any.
pub open spec fn claim_error(
    poll: PollAccount,
    vote: VoteAccount,
    user: UserAccount,
    escrow: Escrow,
) -> Option<SettlementError> {
    if poll.status != PollStatus::Settled {
        Some(SettlementError::NotSettled)
    } else if poll.winning_option is None {
        Some(SettlementError::NoVotes)
    } else {
        let w = poll.winning_option->0 as int;
        let reward = spec_reward(
            vote.votes_per_option@[w],
            poll.total_pool_cents,
            poll.vote_counts@[w],
        );
        if vote.claimed {
            Some(SettlementError::AlreadyClaimed)
        } else if votes_of(vote, w) == 0 {
            Some(SettlementError::NotAWinner)
        } else if escrow.spendable < reward {
            Some(SettlementError::InsufficientEscrow)
        } else if user.demo_balance + reward > u64::MAX {
            Some(SettlementError::Overflow)
        } else {
            None
        }
    }
}

/// Claiming is idempotent per (poll, voter): a successful claim marks the
/// vote record claimed, and on a claimed record the only possible outcome of
/// another claim on a settled poll with a winner, whatever the balances, is
/// the `AlreadyClaimed` error — under which `claim_reward` leaves every
/// entity unchanged.
pub proof fn lemma_claim_idempotent(
    poll: PollAccount,
    claimed_vote: VoteAccount,
    user: UserAccount,
    escrow: Escrow,
)
    requires
        poll.status == PollStatus::Settled,
        poll.winning_option is Some,
        claimed_vote.claimed,
    ensures
        claim_error(poll, claimed_vote, user, escrow) == Some(SettlementError::AlreadyClaimed),
{
}

/// Claims a winning voter's pro-rata reward on a settled poll.
///
/// The reward is `floor(user_winning_votes * total_pool /
/// total_winning_votes)`, computed in a widened integer type; it leaves the
/// escrow, lands on the claimer's balance, and the vote record's one-way
/// `claimed` flag makes a second claim fail with `AlreadyClaimed`, changing
/// nothing.  The integer-division remainder left after all claims stays in
/// escrow by design.
///
/// The caller hands in the poll's record together with this voter's vote
/// record and profile; the bound on the voter's winning tally is the ledger
/// invariant that every record's entry is part of the poll's tally.
pub fn claim_reward(
    poll: &PollAccount,
    vote: &mut VoteAccount,
    user: &mut UserAccount,
    escrow: &mut Escrow,
    now: i64,
) -> (r: Result<u64, SettlementError>)
    requires
        poll.wf(),
        old(user).wf(),
        now >= 0,
        poll.winning_option matches Some(w) ==> votes_of(*old(vote), w as int)
            <= poll.vote_counts@[w as int],
    ensures
        final(user).wf(),
        match r {
            Ok(reward) => {
                &&& claim_error(*poll, *old(vote), *old(user), *old(escrow)) is None
                &&& poll.winning_option matches Some(w) && reward == spec_reward(
                    old(vote).votes_per_option@[w as int],
                    poll.total_pool_cents,
                    poll.vote_counts@[w as int],
                )
                &&& reward <= poll.total_pool_cents
                &&& *final(vote) == (VoteAccount {
                    claimed: true,
                    reward_amount: reward,
                    ..*old(vote)
                })
                &&& final(user).demo_balance == old(user).demo_balance + reward
                &&& final(user).total_wins == crate::user::sat_add(old(user).total_wins, 1)
                &&& final(user).total_winning_amount == crate::user::sat_add(
                    old(user).total_winning_amount,
                    reward,
                )
                &&& final(user).authority == old(user).authority
                &&& final(user).total_votes == old(user).total_votes
                &&& *final(escrow) == (Escrow {
                    spendable: (old(escrow).spendable - reward) as u64,
                    ..*old(escrow)
                })
            },
            Err(e) => {
                &&& claim_error(*poll, *old(vote), *old(user), *old(escrow)) == Some(e)
                &&& *final(vote) == *old(vote)
                &&& *final(user) == *old(user)
                &&& *final(escrow) == *old(escrow)
            },
        },
{
    if !(poll.status == PollStatus::Settled) {
        return Err(SettlementError::NotSettled);
    }
    let w: u8 = match poll.winning_option {
        Some(w) => w,
        None => {
            return Err(SettlementError::NoVotes);
        },
    };
    if vote.claimed {
        return Err(SettlementError::AlreadyClaimed);
    }
    let wi: usize = w as usize;
    let user_winning_votes: u64 = if wi < vote.votes_per_option.len() {
        vote.votes_per_option[wi]
    } else {
        0
    };
    if user_winning_votes == 0 {
        return Err(SettlementError::NotAWinner);
    }
    let total_winning_votes: u64 = poll.vote_counts[wi];
    let reward: u64 = compute_reward(user_winning_votes, poll.total_pool_cents, total_winning_votes);
    if escrow.spendable < reward {
        return Err(SettlementError::InsufficientEscrow);
    }
    if user.demo_balance > u64::MAX - reward {
        return Err(SettlementError::Overflow);
    }
    match mark_claimed(vote, ComponentId::Settlement, reward) {
        Ok(()) => {},
        Err(_) => {
            assert(false);
            return Err(SettlementError::AlreadyClaimed);
        },
    }
    match credit_balance(user, ComponentId::Settlement, reward, now) {
        Ok(()) => {},
        Err(_) => {
            assert(false);
            return Err(SettlementError::Overflow);
        },
    }
    let withdrawn = escrow.withdraw(reward);
    assert(withdrawn);
    Ok(reward)
}

} // verus!

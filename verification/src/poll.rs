//! The poll ledger: poll records and their lifecycle.
//!
//! A poll is created by its creator with an investment, may be edited or
//! deleted by the creator while it has no votes, collects vote tallies while
//! active, and is settled once its end time has passed.  The two privileged
//! endpoints (`record_vote`, `settle_poll_cpi`) mutate a poll on behalf of
//! another component and demand that component's identity before touching any
//! state.

use vstd::prelude::*;

use crate::accounting::fees_covered;
use crate::accounting::lemma_sum_ge_element;
use crate::accounting::lemma_sum_zero_iff_all_zero;
use crate::accounting::spec_creation_fee;
use crate::accounting::spec_pool_seed;
use crate::accounting::sum_u64;
use crate::accounting::compute_fees;
use crate::errors::PollError;
use crate::keys::AccountKey;
use crate::keys::ComponentId;
use vstd::string::StrSliceExecFns;

verus! {

/// Lifecycle state of a poll.
#[derive(Clone, Copy, PartialEq, Eq, Structural, Debug)]
pub enum PollStatus {
    /// Accepting votes until its end time.
    Active,
    /// Settled: winner fixed, rewards claimable.
    Settled,
    /// Abandoned before settlement.
    Cancelled,
}

/// A poll record.  All monetary values are in a minor currency unit (cents).
#[derive(Debug)]
pub struct PollAccount {
    /// Unique poll id, scoped per creator.
    pub poll_id: u64,
    /// The creator's key.
    pub creator: AccountKey,
    /// Poll title (at most 64 chars).
    pub title: String,
    /// Poll description (at most 256 chars).
    pub description: String,
    /// Category tag (at most 32 chars).
    pub category: String,
    /// Image reference (at most 256 chars; empty means none).
    pub image_url: String,
    /// Option labels, 2 to 6 of them, each at most 32 chars.  The index
    /// mapping is fixed for the record's lifetime.
    pub options: Vec<String>,
    /// Vote tally per option, parallel to `options`.
    pub vote_counts: Vec<u64>,
    /// Price per option coin.
    pub unit_price_cents: u64,
    /// Timestamp at which the poll ends.
    pub end_time: i64,
    /// Distributable pool: creator seed plus the cost of all votes.
    pub total_pool_cents: u64,
    /// The creator's initial investment.
    pub creator_investment_cents: u64,
    /// Platform fee carved out of the investment.
    pub platform_fee_cents: u64,
    /// Creator reward reserved at creation and paid at settlement.
    pub creator_reward_cents: u64,
    /// Lifecycle state.
    pub status: PollStatus,
    /// Winning option index, set at settlement; `None` while active and for a
    /// poll settled without votes.
    pub winning_option: Option<u8>,
    /// Number of distinct voters.
    pub total_voters: u32,
    /// Creation timestamp.
    pub created_at: i64,
}

/// The display metadata bounds that both creation and editing enforce.
pub open spec fn metadata_error(
    title: Seq<char>,
    description: Seq<char>,
    category: Seq<char>,
    image_url: Seq<char>,
) -> Option<PollError> {
    if title.len() > 64 {
        Some(PollError::TitleTooLong)
    } else if description.len() > 256 {
        Some(PollError::DescriptionTooLong)
    } else if category.len() > 32 {
        Some(PollError::CategoryTooLong)
    } else if image_url.len() > 256 {
        Some(PollError::ImageUrlTooLong)
    } else {
        None
    }
}

/// Whether every option label fits the 32-char bound.
pub open spec fn labels_ok(options: Seq<String>) -> bool {
    forall|i: int| 0 <= i < options.len() ==> options[i]@.len() <= 32
}

impl PollAccount {
    /// Well-formedness of a poll record: parallel tallies, bounded metadata,
    /// a positive unit price, and a winner only once settled.
    pub open spec fn wf(self) -> bool {
        &&& 2 <= self.options@.len() <= 6
        &&& self.vote_counts@.len() == self.options@.len()
        &&& self.title@.len() <= 64
        &&& self.description@.len() <= 256
        &&& self.category@.len() <= 32
        &&& self.image_url@.len() <= 256
        &&& labels_ok(self.options@)
        &&& self.unit_price_cents >= 1
        &&& (self.status == PollStatus::Active ==> self.winning_option is None)
        &&& (self.winning_option matches Some(w) ==> (w as int) < self.options@.len())
    }

    /// Whether the poll is still accepting operations.
    pub fn is_active(&self) -> (b: bool)
        ensures
            b == (self.status == PollStatus::Active),
    {
        self.status == PollStatus::Active
    }

    /// Whether the poll's end time has passed.
    pub fn is_ended(&self, now: i64) -> (b: bool)
        ensures
            b == (now >= self.end_time),
    {
        now >= self.end_time
    }

    /// Whether any vote has been recorded on the poll.
    pub fn has_votes(&self) -> (b: bool)
        ensures
            b == (sum_u64(self.vote_counts@) != 0),
    {
        let n: usize = self.vote_counts.len();
        let mut i: usize = 0;
        while i < n
            invariant
                i <= n,
                n == self.vote_counts@.len(),
                forall|j: int| 0 <= j < i ==> self.vote_counts@[j] == 0,
            decreases n - i,
        {
            if self.vote_counts[i] > 0 {
                proof {
                    lemma_sum_ge_element(self.vote_counts@, i as int);
                }
                return true;
            }
            i = i + 1;
        }
        proof {
            lemma_sum_zero_iff_all_zero(self.vote_counts@);
        }
        false
    }
}

/// The fields of a poll that no vote, settlement or claim ever changes.
pub open spec fn fixed_fields_eq(a: PollAccount, b: PollAccount) -> bool {
    &&& a.poll_id == b.poll_id
    &&& a.creator == b.creator
    &&& a.title == b.title
    &&& a.description == b.description
    &&& a.category == b.category
    &&& a.image_url == b.image_url
    &&& a.options == b.options
    &&& a.unit_price_cents == b.unit_price_cents
    &&& a.end_time == b.end_time
    &&& a.creator_investment_cents == b.creator_investment_cents
    &&& a.platform_fee_cents == b.platform_fee_cents
    &&& a.creator_reward_cents == b.creator_reward_cents
    &&& a.created_at == b.created_at
}

/// The first guard that creation violates, if any.
pub open spec fn create_poll_error(
    title: Seq<char>,
    description: Seq<char>,
    category: Seq<char>,
    image_url: Seq<char>,
    options: Seq<String>,
    unit_price_cents: u64,
    end_time: i64,
    creator_investment_cents: u64,
    now: i64,
) -> Option<PollError> {
    if metadata_error(title, description, category, image_url) is Some {
        metadata_error(title, description, category, image_url)
    } else if options.len() < 2 || options.len() > 6 {
        Some(PollError::InvalidOptionCount)
    } else if !labels_ok(options) {
        Some(PollError::OptionLabelTooLong)
    } else if unit_price_cents == 0 {
        Some(PollError::InvalidUnitPrice)
    } else if end_time <= now {
        Some(PollError::EndTimeInPast)
    } else if creator_investment_cents < unit_price_cents {
        Some(PollError::InvestmentTooLow)
    } else if !fees_covered(creator_investment_cents) {
        Some(PollError::Overflow)
    } else {
        None
    }
}

/// Validates the display metadata bounds.
fn check_metadata(
    title: &String,
    description: &String,
    category: &String,
    image_url: &String,
) -> (r: Result<(), PollError>)
    ensures
        match r {
            Ok(()) => metadata_error(title@, description@, category@, image_url@) is None,
            Err(e) => metadata_error(title@, description@, category@, image_url@) == Some(e),
        },
{
    if title.as_str().unicode_len() > 64 {
        Err(PollError::TitleTooLong)
    } else if description.as_str().unicode_len() > 256 {
        Err(PollError::DescriptionTooLong)
    } else if category.as_str().unicode_len() > 32 {
        Err(PollError::CategoryTooLong)
    } else if image_url.as_str().unicode_len() > 256 {
        Err(PollError::ImageUrlTooLong)
    } else {
        Ok(())
    }
}

/// Validates every option label against the 32-char bound.
fn check_labels(options: &Vec<String>) -> (r: Result<(), PollError>)
    ensures
        match r {
            Ok(()) => labels_ok(options@),
            Err(e) => !labels_ok(options@) && e == PollError::OptionLabelTooLong,
        },
{
    let n: usize = options.len();
    let mut i: usize = 0;
    while i < n
        invariant
            i <= n,
            n == options@.len(),
            forall|j: int| 0 <= j < i ==> options@[j]@.len() <= 32,
        decreases n - i,
    {
        if options[i].as_str().unicode_len() > 32 {
            return Err(PollError::OptionLabelTooLong);
        }
        i = i + 1;
    }
    Ok(())
}

/// Creates a poll: validates every bound, carves the fees out of the
/// investment, and returns the new active record with all tallies at zero.
/// The caller moves the investment into the poll's escrow.
pub fn create_poll(
    creator: AccountKey,
    poll_id: u64,
    title: String,
    description: String,
    category: String,
    image_url: String,
    options: Vec<String>,
    unit_price_cents: u64,
    end_time: i64,
    creator_investment_cents: u64,
    now: i64,
) -> (r: Result<PollAccount, PollError>)
    ensures
        match r {
            Ok(p) => {
                &&& create_poll_error(
                    title@,
                    description@,
                    category@,
                    image_url@,
                    options@,
                    unit_price_cents,
                    end_time,
                    creator_investment_cents,
                    now,
                ) is None
                &&& p.wf()
                &&& p.poll_id == poll_id
                &&& p.creator == creator
                &&& p.title == title
                &&& p.description == description
                &&& p.category == category
                &&& p.image_url == image_url
                &&& p.options == options
                &&& p.vote_counts@.len() == options@.len()
                &&& sum_u64(p.vote_counts@) == 0
                &&& p.unit_price_cents == unit_price_cents
                &&& p.end_time == end_time
                &&& p.total_pool_cents == spec_pool_seed(creator_investment_cents)
                &&& p.creator_investment_cents == creator_investment_cents
                &&& p.platform_fee_cents == spec_creation_fee(creator_investment_cents)
                &&& p.creator_reward_cents == spec_creation_fee(creator_investment_cents)
                &&& p.status == PollStatus::Active
                &&& p.winning_option is None
                &&& p.total_voters == 0
                &&& p.created_at == now
            },
            Err(e) => create_poll_error(
                title@,
                description@,
                category@,
                image_url@,
                options@,
                unit_price_cents,
                end_time,
                creator_investment_cents,
                now,
            ) == Some(e),
        },
{
    if let Err(e) = check_metadata(&title, &description, &category, &image_url) {
        return Err(e);
    }
    let option_count: usize = options.len();
    if option_count < 2 || option_count > 6 {
        return Err(PollError::InvalidOptionCount);
    }
    if let Err(e) = check_labels(&options) {
        return Err(e);
    }
    if unit_price_cents == 0 {
        return Err(PollError::InvalidUnitPrice);
    }
    if end_time <= now {
        return Err(PollError::EndTimeInPast);
    }
    if creator_investment_cents < unit_price_cents {
        return Err(PollError::InvestmentTooLow);
    }
    let fees = match compute_fees(creator_investment_cents) {
        Ok(f) => f,
        Err(e) => {
            return Err(e);
        },
    };
    let mut vote_counts: Vec<u64> = Vec::new();
    let mut i: usize = 0;
    while i < option_count
        invariant
            i <= option_count,
            vote_counts@.len() == i,
            forall|j: int| 0 <= j < i ==> vote_counts@[j] == 0,
        decreases option_count - i,
    {
        vote_counts.push(0);
        i = i + 1;
    }
    proof {
        lemma_sum_zero_iff_all_zero(vote_counts@);
    }
    Ok(PollAccount {
        poll_id,
        creator,
        title,
        description,
        category,
        image_url,
        options,
        vote_counts,
        unit_price_cents,
        end_time,
        total_pool_cents: fees.pool_seed,
        creator_investment_cents,
        platform_fee_cents: fees.platform_fee,
        creator_reward_cents: fees.creator_reward,
        status: PollStatus::Active,
        winning_option: None,
        total_voters: 0,
        created_at: now,
    })
}

/// The first guard that an edit or a deletion by `caller` violates, before
/// the new inputs are looked at: creator-only, active, not ended, no votes.
pub open spec fn mutate_guard_error(poll: PollAccount, caller: AccountKey, now: i64) -> Option<
    PollError,
> {
    if caller != poll.creator {
        Some(PollError::UnauthorizedNotCreator)
    } else if poll.status != PollStatus::Active {
        Some(PollError::PollNotActive)
    } else if now >= poll.end_time {
        Some(PollError::PollAlreadyEnded)
    } else if sum_u64(poll.vote_counts@) != 0 {
        Some(PollError::PollHasVotes)
    } else {
        None
    }
}

/// The first guard that an edit violates, if any.
pub open spec fn edit_poll_error(
    poll: PollAccount,
    caller: AccountKey,
    title: Seq<char>,
    description: Seq<char>,
    category: Seq<char>,
    image_url: Seq<char>,
    options: Seq<String>,
    end_time: i64,
    now: i64,
) -> Option<PollError> {
    if mutate_guard_error(poll, caller, now) is Some {
        mutate_guard_error(poll, caller, now)
    } else if metadata_error(title, description, category, image_url) is Some {
        metadata_error(title, description, category, image_url)
    } else if options.len() != poll.options@.len() {
        Some(PollError::OptionCountMismatch)
    } else if !labels_ok(options) {
        Some(PollError::OptionLabelTooLong)
    } else if end_time <= now {
        Some(PollError::EndTimeInPast)
    } else {
        None
    }
}

/// Edits a poll's display metadata, option labels and end time.  Only the
/// creator may edit, only while the poll is active, not ended and without a
/// single vote.  The option count is fixed: labels may be renamed but the
/// tally-index mapping never moves.  Unit price, investment and fees are
/// immutable.  On any error the poll is unchanged.
pub fn edit_poll(
    poll: &mut PollAccount,
    caller: AccountKey,
    title: String,
    description: String,
    category: String,
    image_url: String,
    options: Vec<String>,
    end_time: i64,
    now: i64,
) -> (r: Result<(), PollError>)
    requires
        old(poll).wf(),
    ensures
        final(poll).wf(),
        match r {
            Ok(()) => {
                &&& edit_poll_error(
                    *old(poll),
                    caller,
                    title@,
                    description@,
                    category@,
                    image_url@,
                    options@,
                    end_time,
                    now,
                ) is None
                &&& *final(poll) == (PollAccount {
                    title,
                    description,
                    category,
                    image_url,
                    options,
                    end_time,
                    ..*old(poll)
                })
            },
            Err(e) => {
                &&& edit_poll_error(
                    *old(poll),
                    caller,
                    title@,
                    description@,
                    category@,
                    image_url@,
                    options@,
                    end_time,
                    now,
                ) == Some(e)
                &&& *final(poll) == *old(poll)
            },
        },
{
    if !(caller == poll.creator) {
        return Err(PollError::UnauthorizedNotCreator);
    }
    if !poll.is_active() {
        return Err(PollError::PollNotActive);
    }
    if poll.is_ended(now) {
        return Err(PollError::PollAlreadyEnded);
    }
    if poll.has_votes() {
        return Err(PollError::PollHasVotes);
    }
    if let Err(e) = check_metadata(&title, &description, &category, &image_url) {
        return Err(e);
    }
    if options.len() != poll.options.len() {
        return Err(PollError::OptionCountMismatch);
    }
    if let Err(e) = check_labels(&options) {
        return Err(e);
    }
    if end_time <= now {
        return Err(PollError::EndTimeInPast);
    }
    poll.title = title;
    poll.description = description;
    poll.category = category;
    poll.image_url = image_url;
    poll.options = options;
    poll.end_time = end_time;
    Ok(())
}

/// Checks whether the creator may delete the poll: the same guards as an
/// edit.  The caller then drains the escrow back to the creator and removes
/// the record, in that order.
pub fn delete_poll(poll: &PollAccount, caller: AccountKey, now: i64) -> (r: Result<
    (),
    PollError,
>)
    ensures
        match r {
            Ok(()) => mutate_guard_error(*poll, caller, now) is None,
            Err(e) => mutate_guard_error(*poll, caller, now) == Some(e),
        },
{
    if !(caller == poll.creator) {
        return Err(PollError::UnauthorizedNotCreator);
    }
    if !poll.is_active() {
        return Err(PollError::PollNotActive);
    }
    if poll.is_ended(now) {
        return Err(PollError::PollAlreadyEnded);
    }
    if poll.has_votes() {
        return Err(PollError::PollHasVotes);
    }
    Ok(())
}

/// The first guard that recording a vote violates, if any.
pub open spec fn record_vote_error(
    poll: PollAccount,
    caller: ComponentId,
    option_index: u8,
    num_coins: u64,
    cost: u64,
) -> Option<PollError> {
    if caller != ComponentId::VoteLedger {
        Some(PollError::UnauthorizedCaller)
    } else if poll.status != PollStatus::Active {
        Some(PollError::PollNotActive)
    } else if poll.options@.len() <= option_index as int {
        Some(PollError::InvalidOption)
    } else if num_coins == 0 {
        Some(PollError::ZeroCoins)
    } else if poll.vote_counts@[option_index as int] + num_coins > u64::MAX {
        Some(PollError::Overflow)
    } else if poll.total_pool_cents + cost > u64::MAX {
        Some(PollError::Overflow)
    } else {
        None
    }
}

/// Privileged endpoint of the poll ledger: records `num_coins` coins on one
/// option and adds their cost to the pool.  Only the vote ledger is on the
/// allow-list; any other caller is rejected before any state changes.  On any
/// error the poll is unchanged.
pub fn record_vote(
    poll: &mut PollAccount,
    caller: ComponentId,
    option_index: u8,
    num_coins: u64,
    cost: u64,
    is_new_voter: bool,
) -> (r: Result<(), PollError>)
    requires
        old(poll).wf(),
    ensures
        final(poll).wf(),
        match r {
            Ok(()) => {
                &&& record_vote_error(*old(poll), caller, option_index, num_coins, cost) is None
                &&& fixed_fields_eq(*final(poll), *old(poll))
                &&& final(poll).vote_counts@ == old(poll).vote_counts@.update(
                    option_index as int,
                    (old(poll).vote_counts@[option_index as int] + num_coins) as u64,
                )
                &&& final(poll).total_pool_cents == old(poll).total_pool_cents + cost
                &&& sum_u64(final(poll).vote_counts@) == sum_u64(old(poll).vote_counts@)
                    + num_coins
                &&& final(poll).status == old(poll).status
                &&& final(poll).winning_option == old(poll).winning_option
                &&& final(poll).total_voters == (if is_new_voter && old(poll).total_voters
                    < u32::MAX {
                    old(poll).total_voters + 1
                } else {
                    old(poll).total_voters as int
                })
            },
            Err(e) => {
                &&& record_vote_error(*old(poll), caller, option_index, num_coins, cost) == Some(e)
                &&& *final(poll) == *old(poll)
            },
        },
{
    if !(caller == ComponentId::VoteLedger) {
        return Err(PollError::UnauthorizedCaller);
    }
    if !poll.is_active() {
        return Err(PollError::PollNotActive);
    }
    let idx: usize = option_index as usize;
    if idx >= poll.options.len() {
        return Err(PollError::InvalidOption);
    }
    if num_coins == 0 {
        return Err(PollError::ZeroCoins);
    }
    let tally: u64 = poll.vote_counts[idx];
    if num_coins > u64::MAX - tally {
        return Err(PollError::Overflow);
    }
    if cost > u64::MAX - poll.total_pool_cents {
        return Err(PollError::Overflow);
    }
    proof {
        crate::accounting::lemma_sum_update(
            poll.vote_counts@,
            idx as int,
            (tally + num_coins) as u64,
        );
    }
    poll.vote_counts.set(idx, tally + num_coins);
    poll.total_pool_cents = poll.total_pool_cents + cost;
    if is_new_voter && poll.total_voters < u32::MAX {
        poll.total_voters = poll.total_voters + 1;
    }
    Ok(())
}

/// The first guard that the settlement endpoint violates, if any.
pub open spec fn settle_cpi_error(poll: PollAccount, caller: ComponentId, now: i64) -> Option<
    PollError,
> {
    if caller != ComponentId::Settlement {
        Some(PollError::UnauthorizedCaller)
    } else if poll.status != PollStatus::Active {
        Some(PollError::PollNotActive)
    } else if now < poll.end_time {
        Some(PollError::PollNotEnded)
    } else {
        None
    }
}

/// Privileged endpoint of the poll ledger: flips an ended, active poll to
/// settled and fixes the winning option.  Only the settlement component is on
/// the allow-list.  The status flip is the compare-and-swap that makes
/// settlement race-safe: of two racing calls only one observes the active
/// state.  On any error the poll is unchanged.
pub fn settle_poll_cpi(
    poll: &mut PollAccount,
    caller: ComponentId,
    winning_option: Option<u8>,
    now: i64,
) -> (r: Result<(), PollError>)
    requires
        old(poll).wf(),
        winning_option matches Some(w) ==> (w as int) < old(poll).options@.len(),
    ensures
        final(poll).wf(),
        match r {
            Ok(()) => {
                &&& settle_cpi_error(*old(poll), caller, now) is None
                &&& *final(poll) == (PollAccount {
                    status: PollStatus::Settled,
                    winning_option,
                    ..*old(poll)
                })
            },
            Err(e) => {
                &&& settle_cpi_error(*old(poll), caller, now) == Some(e)
                &&& *final(poll) == *old(poll)
            },
        },
{
    if !(caller == ComponentId::Settlement) {
        return Err(PollError::UnauthorizedCaller);
    }
    if !poll.is_active() {
        return Err(PollError::PollNotActive);
    }
    if !poll.is_ended(now) {
        return Err(PollError::PollNotEnded);
    }
    poll.status = PollStatus::Settled;
    poll.winning_option = winning_option;
    Ok(())
}

} // verus!

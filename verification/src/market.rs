//! The market engine: the four components wired together.
//!
//! A `Market` owns the entity stores of the poll, vote and user ledgers and
//! the escrows, together with the three components' keys.  Each operation
//! consults address derivation to locate the records it touches, enforces the
//! guards, calls the accounting, and routes privileged mutations through the
//! owning component's allow-listed endpoint.  Every operation is
//! all-or-nothing: on any error no store changes.

use vstd::prelude::*;

use crate::accounting::Escrow;
use crate::accounting::sum_u64;
use crate::address::derive_poll_slot;
use crate::address::derive_treasury_slot;
use crate::address::derive_user_slot;
use crate::address::derive_vote_slot;
use crate::address::derived_slot;
use crate::address::key_bytes;
use crate::address::key_of_bytes;
use crate::address::lemma_key_bytes_roundtrip;
use crate::address::poll_namespace;
use crate::address::treasury_namespace;
use crate::address::user_namespace;
use crate::address::vote_namespace;
use crate::errors::PollError;
use crate::errors::SettlementError;
use crate::errors::UserError;
use crate::errors::VoteError;
use crate::keys::AccountKey;
use crate::poll::PollAccount;
use crate::store::EntityStore;
use crate::user::UserAccount;
use crate::user::initial_user;
use crate::user::signup;
use crate::vote::VoteAccount;
use vstd::bytes::spec_u64_to_le_bytes;

verus! {

/// What a market operation can fail with: a component's own error, or a
/// storage-location failure found while locating the records.
#[derive(Clone, Copy, PartialEq, Eq, Structural, Debug)]
pub enum MarketError {
    /// The poll ledger refused the operation.
    Poll(PollError),
    /// The vote ledger refused the operation.
    Vote(VoteError),
    /// The user ledger refused the operation.
    User(UserError),
    /// The settlement component refused the operation.
    Settlement(SettlementError),
    /// No bump seed yields a slot for these seeds (statistically improbable).
    SlotUnavailable,
    /// A record already lives at the derived slot.
    RecordExists,
    /// No record lives at the derived slot.
    RecordMissing,
    /// The record at the derived slot does not belong to the given pair of
    /// seeds — possible only under an address collision, which the
    /// derivation rules out by design.
    RecordMismatch,
}

/// The assembled market: component identities and their entity stores.
pub struct Market {
    /// The poll ledger's key: polls and escrows derive under it.
    pub poll_program: AccountKey,
    /// The vote ledger's key: vote records derive under it.
    pub vote_program: AccountKey,
    /// The user ledger's key: user profiles derive under it.
    pub user_program: AccountKey,
    /// User profiles by derived slot.
    pub users: EntityStore<UserAccount>,
    /// Poll records by derived slot.
    pub polls: EntityStore<PollAccount>,
    /// Vote records by derived slot.
    pub votes: EntityStore<VoteAccount>,
    /// Poll escrows by derived slot.
    pub escrows: EntityStore<Escrow>,
}

impl Market {
    /// Well-formedness: every store keeps its key-uniqueness invariant, and
    /// every stored profile and poll is itself well-formed.
    pub open spec fn wf(self) -> bool {
        &&& self.users.wf()
        &&& self.polls.wf()
        &&& self.votes.wf()
        &&& self.escrows.wf()
        &&& forall|k: AccountKey|
            self.users@.dom().contains(k) ==> (#[trigger] self.users@[k]).wf()
        &&& forall|k: AccountKey|
            self.polls@.dom().contains(k) ==> (#[trigger] self.polls@[k]).wf()
    }

    /// The three component keys, which no operation changes.
    pub open spec fn same_programs(self, other: Market) -> bool {
        &&& self.poll_program == other.poll_program
        &&& self.vote_program == other.vote_program
        &&& self.user_program == other.user_program
    }

    /// The slot of a principal's profile, if one derives.
    pub open spec fn spec_user_slot(self, authority: AccountKey) -> Option<AccountKey> {
        match derived_slot(
            seq![user_namespace(), key_bytes(authority)],
            key_bytes(self.user_program),
        ) {
            Some(d) => Some(key_of_bytes(d.0)),
            None => None,
        }
    }

    /// The slot of a creator's poll, if one derives.
    pub open spec fn spec_poll_slot(self, creator: AccountKey, poll_id: u64) -> Option<
        AccountKey,
    > {
        match derived_slot(
            seq![poll_namespace(), key_bytes(creator), spec_u64_to_le_bytes(poll_id)],
            key_bytes(self.poll_program),
        ) {
            Some(d) => Some(key_of_bytes(d.0)),
            None => None,
        }
    }

    /// The slot of a voter's record on a poll, if one derives.
    pub open spec fn spec_vote_slot(self, poll_slot: AccountKey, voter: AccountKey) -> Option<
        AccountKey,
    > {
        match derived_slot(
            seq![vote_namespace(), key_bytes(poll_slot), key_bytes(voter)],
            key_bytes(self.vote_program),
        ) {
            Some(d) => Some(key_of_bytes(d.0)),
            None => None,
        }
    }

    /// The slot of a poll's escrow, if one derives.
    pub open spec fn spec_treasury_slot(self, poll_slot: AccountKey) -> Option<AccountKey> {
        match derived_slot(
            seq![treasury_namespace(), key_bytes(poll_slot)],
            key_bytes(self.poll_program),
        ) {
            Some(d) => Some(key_of_bytes(d.0)),
            None => None,
        }
    }

    /// An empty market under the three component identities.
    pub fn new(poll_program: AccountKey, vote_program: AccountKey, user_program: AccountKey) -> (m:
        Market)
        ensures
            m.wf(),
            m.poll_program == poll_program,
            m.vote_program == vote_program,
            m.user_program == user_program,
            m.users@ == Map::<AccountKey, UserAccount>::empty(),
            m.polls@ == Map::<AccountKey, PollAccount>::empty(),
            m.votes@ == Map::<AccountKey, VoteAccount>::empty(),
            m.escrows@ == Map::<AccountKey, Escrow>::empty(),
    {
        Market {
            poll_program,
            vote_program,
            user_program,
            users: EntityStore::new(),
            polls: EntityStore::new(),
            votes: EntityStore::new(),
            escrows: EntityStore::new(),
        }
    }

    /// The first failure of a signup, if any.
    pub open spec fn create_user_error(self, authority: AccountKey) -> Option<MarketError> {
        match self.spec_user_slot(authority) {
            None => Some(MarketError::SlotUnavailable),
            Some(slot) => if self.users@.contains_key(slot) {
                Some(MarketError::RecordExists)
            } else {
                None
            },
        }
    }

    /// Signs a principal up: derives their profile slot and creates the
    /// profile there.  Fails if a profile already lives at the slot.
    pub fn create_user(&mut self, authority: AccountKey, is_demo: bool, now: i64) -> (r: Result<
        AccountKey,
        MarketError,
    >)
        requires
            old(self).wf(),
            now >= 0,
        ensures
            final(self).wf(),
            final(self).same_programs(*old(self)),
            final(self).polls@ == old(self).polls@,
            final(self).votes@ == old(self).votes@,
            final(self).escrows@ == old(self).escrows@,
            match r {
                Ok(slot) => {
                    &&& old(self).create_user_error(authority) is None
                    &&& old(self).spec_user_slot(authority) == Some(slot)
                    &&& final(self).users@ == old(self).users@.insert(
                        slot,
                        initial_user(authority, is_demo, now),
                    )
                },
                Err(e) => {
                    &&& old(self).create_user_error(authority) == Some(e)
                    &&& final(self).users@ == old(self).users@
                },
            },
    {
        let slot: AccountKey = match derive_user_slot(&self.user_program, &authority) {
            Some(p) => p.0,
            None => {
                return Err(MarketError::SlotUnavailable);
            },
        };
        proof {
            lemma_key_bytes_roundtrip(slot);
        }
        if self.users.contains_key(&slot) {
            return Err(MarketError::RecordExists);
        }
        let profile = signup(authority, is_demo, now);
        self.users.upsert(slot, profile);
        Ok(slot)
    }
    /// The first failure of a poll creation, if any.
    pub open spec fn create_poll_check(
        self,
        creator: AccountKey,
        poll_id: u64,
        title: Seq<char>,
        description: Seq<char>,
        category: Seq<char>,
        image_url: Seq<char>,
        options: Seq<String>,
        unit_price_cents: u64,
        end_time: i64,
        creator_investment_cents: u64,
        now: i64,
    ) -> Option<MarketError> {
        if self.spec_user_slot(creator) is None || self.spec_poll_slot(creator, poll_id) is None {
            Some(MarketError::SlotUnavailable)
        } else {
            let uslot = self.spec_user_slot(creator)->0;
            let pslot = self.spec_poll_slot(creator, poll_id)->0;
            if self.spec_treasury_slot(pslot) is None {
                Some(MarketError::SlotUnavailable)
            } else if self.polls@.contains_key(pslot) {
                Some(MarketError::RecordExists)
            } else if !self.users@.contains_key(uslot) {
                Some(MarketError::RecordMissing)
            } else {
                match crate::poll::create_poll_error(
                    title,
                    description,
                    category,
                    image_url,
                    options,
                    unit_price_cents,
                    end_time,
                    creator_investment_cents,
                    now,
                ) {
                    Some(e) => Some(MarketError::Poll(e)),
                    None => if self.users@[uslot].demo_balance < creator_investment_cents {
                        Some(MarketError::Poll(PollError::InsufficientFunds))
                    } else if self.users@[uslot].polls_created == u64::MAX {
                        Some(MarketError::Poll(PollError::Overflow))
                    } else {
                        None
                    },
                }
            }
        }
    }

    /// Creates a poll: derives the poll, escrow and creator-profile slots,
    /// validates the inputs, moves the investment from the creator's balance
    /// into a fresh escrow, stores the new active record and counts it on the
    /// creator's profile.  Returns the poll's slot.
    pub fn create_poll(
        &mut self,
        creator: AccountKey,
        poll_id: u64,
        title: String,
        description: String,
        category: String,
        image_url: String,
        options: Vec<String>,
        unit_price_cents: u64,
        end_time: i64,
        creator_investment_cents: u64,
        now: i64,
    ) -> (r: Result<AccountKey, MarketError>)
        requires
            old(self).wf(),
            now >= 0,
        ensures
            final(self).wf(),
            final(self).same_programs(*old(self)),
            final(self).votes@ == old(self).votes@,
            match r {
                Ok(pslot) => {
                    &&& old(self).create_poll_check(
                        creator,
                        poll_id,
                        title@,
                        description@,
                        category@,
                        image_url@,
                        options@,
                        unit_price_cents,
                        end_time,
                        creator_investment_cents,
                        now,
                    ) is None
                    &&& old(self).spec_poll_slot(creator, poll_id) == Some(pslot)
                    &&& ({
                        let uslot = old(self).spec_user_slot(creator)->0;
                        let tslot = old(self).spec_treasury_slot(pslot)->0;
                        let prior = old(self).users@[uslot];
                        &&& final(self).users@ == old(self).users@.insert(
                            uslot,
                            UserAccount {
                                demo_balance: (prior.demo_balance
                                    - creator_investment_cents) as u64,
                                polls_created: (prior.polls_created + 1) as u64,
                                ..prior
                            },
                        )
                        &&& final(self).escrows@ == old(self).escrows@.insert(
                            tslot,
                            Escrow { spendable: creator_investment_cents, reserved: 0 },
                        )
                        &&& final(self).polls@.contains_key(pslot)
                        &&& final(self).polls@.remove(pslot) == old(self).polls@
                        &&& ({
                            let p = final(self).polls@[pslot];
                            &&& p.poll_id == poll_id
                            &&& p.creator == creator
                            &&& p.title == title
                            &&& p.description == description
                            &&& p.category == category
                            &&& p.image_url == image_url
                            &&& p.options == options
                            &&& sum_u64(p.vote_counts@) == 0
                            &&& p.unit_price_cents == unit_price_cents
                            &&& p.end_time == end_time
                            &&& p.total_pool_cents == crate::accounting::spec_pool_seed(
                                creator_investment_cents,
                            )
                            &&& p.status == crate::poll::PollStatus::Active
                            &&& p.winning_option is None
                            &&& p.total_voters == 0
                            &&& p.created_at == now
                        })
                    })
                },
                Err(e) => {
                    &&& old(self).create_poll_check(
                        creator,
                        poll_id,
                        title@,
                        description@,
                        category@,
                        image_url@,
                        options@,
                        unit_price_cents,
                        end_time,
                        creator_investment_cents,
                        now,
                    ) == Some(e)
                    &&& final(self).users@ == old(self).users@
                    &&& final(self).polls@ == old(self).polls@
                    &&& final(self).escrows@ == old(self).escrows@
                },
            },
    {
        let user_slot: AccountKey = match derive_user_slot(&self.user_program, &creator) {
            Some(p) => p.0,
            None => {
                return Err(MarketError::SlotUnavailable);
            },
        };
        let poll_slot: AccountKey = match derive_poll_slot(&self.poll_program, &creator, poll_id) {
            Some(p) => p.0,
            None => {
                return Err(MarketError::SlotUnavailable);
            },
        };
        proof {
            lemma_key_bytes_roundtrip(user_slot);
            lemma_key_bytes_roundtrip(poll_slot);
        }
        let treasury_slot: AccountKey = match derive_treasury_slot(&self.poll_program, &poll_slot) {
            Some(p) => p.0,
            None => {
                return Err(MarketError::SlotUnavailable);
            },
        };
        proof {
            lemma_key_bytes_roundtrip(treasury_slot);
        }
        if self.polls.contains_key(&poll_slot) {
            return Err(MarketError::RecordExists);
        }
        let prior: UserAccount = match self.users.get(&user_slot) {
            Some(u) => *u,
            None => {
                return Err(MarketError::RecordMissing);
            },
        };
        let record: PollAccount = match crate::poll::create_poll(
            creator,
            poll_id,
            title,
            description,
            category,
            image_url,
            options,
            unit_price_cents,
            end_time,
            creator_investment_cents,
            now,
        ) {
            Ok(p) => p,
            Err(e) => {
                return Err(MarketError::Poll(e));
            },
        };
        if prior.demo_balance < creator_investment_cents {
            return Err(MarketError::Poll(PollError::InsufficientFunds));
        }
        if prior.polls_created == u64::MAX {
            return Err(MarketError::Poll(PollError::Overflow));
        }
        let funded = UserAccount {
            demo_balance: prior.demo_balance - creator_investment_cents,
            polls_created: prior.polls_created + 1,
            ..prior
        };
        self.users.upsert(user_slot, funded);
        self.escrows.upsert(
            treasury_slot,
            Escrow { spendable: creator_investment_cents, reserved: 0 },
        );
        self.polls.upsert(poll_slot, record);
        proof {
            assert(final(self).polls@.remove(poll_slot) =~= old(self).polls@);
        }
        Ok(poll_slot)
    }

    /// The first failure of a poll edit, if any.
    pub open spec fn edit_poll_check(
        self,
        creator: AccountKey,
        poll_id: u64,
        title: Seq<char>,
        description: Seq<char>,
        category: Seq<char>,
        image_url: Seq<char>,
        options: Seq<String>,
        end_time: i64,
        now: i64,
    ) -> Option<MarketError> {
        match self.spec_poll_slot(creator, poll_id) {
            None => Some(MarketError::SlotUnavailable),
            Some(pslot) => if !self.polls@.contains_key(pslot) {
                Some(MarketError::RecordMissing)
            } else {
                match crate::poll::edit_poll_error(
                    self.polls@[pslot],
                    creator,
                    title,
                    description,
                    category,
                    image_url,
                    options,
                    end_time,
                    now,
                ) {
                    Some(e) => Some(MarketError::Poll(e)),
                    None => None,
                }
            },
        }
    }

    /// Edits a poll's display metadata, option labels and end time, locating
    /// it by its derived slot.  Creator-only, and only while the poll is
    /// active, not ended, and without a single vote.
    pub fn edit_poll(
        &mut self,
        creator: AccountKey,
        poll_id: u64,
        title: String,
        description: String,
        category: String,
        image_url: String,
        options: Vec<String>,
        end_time: i64,
        now: i64,
    ) -> (r: Result<(), MarketError>)
        requires
            old(self).wf(),
        ensures
            final(self).wf(),
            final(self).same_programs(*old(self)),
            final(self).users@ == old(self).users@,
            final(self).votes@ == old(self).votes@,
            final(self).escrows@ == old(self).escrows@,
            match r {
                Ok(()) => {
                    &&& old(self).edit_poll_check(
                        creator,
                        poll_id,
                        title@,
                        description@,
                        category@,
                        image_url@,
                        options@,
                        end_time,
                        now,
                    ) is None
                    &&& ({
                        let pslot = old(self).spec_poll_slot(creator, poll_id)->0;
                        final(self).polls@ == old(self).polls@.insert(
                            pslot,
                            PollAccount {
                                title,
                                description,
                                category,
                                image_url,
                                options,
                                end_time,
                                ..old(self).polls@[pslot]
                            },
                        )
                    })
                },
                Err(e) => {
                    &&& old(self).edit_poll_check(
                        creator,
                        poll_id,
                        title@,
                        description@,
                        category@,
                        image_url@,
                        options@,
                        end_time,
                        now,
                    ) == Some(e)
                    &&& final(self).polls@ == old(self).polls@
                },
            },
    {
        let poll_slot: AccountKey = match derive_poll_slot(&self.poll_program, &creator, poll_id) {
            Some(p) => p.0,
            None => {
                return Err(MarketError::SlotUnavailable);
            },
        };
        proof {
            lemma_key_bytes_roundtrip(poll_slot);
        }
        let mut record: PollAccount = match self.polls.take(&poll_slot) {
            Some(p) => p,
            None => {
                return Err(MarketError::RecordMissing);
            },
        };
        match crate::poll::edit_poll(
            &mut record,
            creator,
            title,
            description,
            category,
            image_url,
            options,
            end_time,
            now,
        ) {
            Ok(()) => {
                self.polls.upsert(poll_slot, record);
                Ok(())
            },
            Err(e) => {
                self.polls.upsert(poll_slot, record);
                proof {
                    assert(final(self).polls@ =~= old(self).polls@);
                }
                Err(MarketError::Poll(e))
            },
        }
    }

    /// The first failure of a poll deletion, if any.
    pub open spec fn delete_poll_check(self, creator: AccountKey, poll_id: u64, now: i64) -> Option<
        MarketError,
    > {
        if self.spec_poll_slot(creator, poll_id) is None || self.spec_user_slot(creator) is None {
            Some(MarketError::SlotUnavailable)
        } else {
            let pslot = self.spec_poll_slot(creator, poll_id)->0;
            let uslot = self.spec_user_slot(creator)->0;
            if self.spec_treasury_slot(pslot) is None {
                Some(MarketError::SlotUnavailable)
            } else {
                let tslot = self.spec_treasury_slot(pslot)->0;
                if !self.polls@.contains_key(pslot) {
                    Some(MarketError::RecordMissing)
                } else {
                    match crate::poll::mutate_guard_error(self.polls@[pslot], creator, now) {
                        Some(e) => Some(MarketError::Poll(e)),
                        None => if !self.users@.contains_key(uslot) {
                            Some(MarketError::RecordMissing)
                        } else if !self.escrows@.contains_key(tslot) {
                            Some(MarketError::RecordMissing)
                        } else if self.users@[uslot].demo_balance + self.escrows@[tslot].spendable
                            > u64::MAX {
                            Some(MarketError::User(UserError::Overflow))
                        } else {
                            None
                        },
                    }
                }
            }
        }
    }

    /// Deletes a poll and refunds the whole escrow to the creator: the same
    /// guards as an edit, then an explicit two-step drain of the escrow into
    /// the creator's balance followed by removal of both records.  Returns
    /// the refunded amount.
    pub fn delete_poll(&mut self, creator: AccountKey, poll_id: u64, now: i64) -> (r: Result<
        u64,
        MarketError,
    >)
        requires
            old(self).wf(),
        ensures
            final(self).wf(),
            final(self).same_programs(*old(self)),
            final(self).votes@ == old(self).votes@,
            match r {
                Ok(refund) => {
                    &&& old(self).delete_poll_check(creator, poll_id, now) is None
                    &&& ({
                        let pslot = old(self).spec_poll_slot(creator, poll_id)->0;
                        let uslot = old(self).spec_user_slot(creator)->0;
                        let tslot = old(self).spec_treasury_slot(pslot)->0;
                        let prior = old(self).users@[uslot];
                        &&& refund == old(self).escrows@[tslot].spendable
                        &&& final(self).users@ == old(self).users@.insert(
                            uslot,
                            UserAccount {
                                demo_balance: (prior.demo_balance + refund) as u64,
                                ..prior
                            },
                        )
                        &&& final(self).escrows@ == old(self).escrows@.remove(tslot)
                        &&& final(self).polls@ == old(self).polls@.remove(pslot)
                    })
                },
                Err(e) => {
                    &&& old(self).delete_poll_check(creator, poll_id, now) == Some(e)
                    &&& final(self).users@ == old(self).users@
                    &&& final(self).polls@ == old(self).polls@
                    &&& final(self).escrows@ == old(self).escrows@
                },
            },
    {
        let poll_slot: AccountKey = match derive_poll_slot(&self.poll_program, &creator, poll_id) {
            Some(p) => p.0,
            None => {
                return Err(MarketError::SlotUnavailable);
            },
        };
        let user_slot: AccountKey = match derive_user_slot(&self.user_program, &creator) {
            Some(p) => p.0,
            None => {
                return Err(MarketError::SlotUnavailable);
            },
        };
        proof {
            lemma_key_bytes_roundtrip(poll_slot);
            lemma_key_bytes_roundtrip(user_slot);
        }
        let treasury_slot: AccountKey = match derive_treasury_slot(&self.poll_program, &poll_slot) {
            Some(p) => p.0,
            None => {
                return Err(MarketError::SlotUnavailable);
            },
        };
        proof {
            lemma_key_bytes_roundtrip(treasury_slot);
        }
        let may_delete: bool = match self.polls.get(&poll_slot) {
            Some(p) => {
                match crate::poll::delete_poll(p, creator, now) {
                    Ok(()) => true,
                    Err(e) => {
                        return Err(MarketError::Poll(e));
                    },
                }
            },
            None => {
                return Err(MarketError::RecordMissing);
            },
        };
        assert(may_delete);
        let prior: UserAccount = match self.users.get(&user_slot) {
            Some(u) => *u,
            None => {
                return Err(MarketError::RecordMissing);
            },
        };
        let refund: u64 = match self.escrows.get(&treasury_slot) {
            Some(e) => e.spendable,
            None => {
                return Err(MarketError::RecordMissing);
            },
        };
        if prior.demo_balance > u64::MAX - refund {
            return Err(MarketError::User(UserError::Overflow));
        }
        let refunded = UserAccount { demo_balance: prior.demo_balance + refund, ..prior };
        self.users.upsert(user_slot, refunded);
        self.escrows.remove(&treasury_slot);
        self.polls.remove(&poll_slot);
        Ok(refund)
    }
    /// The first failure of a vote cast, if any.
    pub open spec fn cast_vote_check(
        self,
        voter: AccountKey,
        creator: AccountKey,
        poll_id: u64,
        option_index: u8,
        num_coins: u64,
        now: i64,
    ) -> Option<MarketError> {
        if self.spec_poll_slot(creator, poll_id) is None || self.spec_user_slot(voter) is None {
            Some(MarketError::SlotUnavailable)
        } else {
            let pslot = self.spec_poll_slot(creator, poll_id)->0;
            let uslot = self.spec_user_slot(voter)->0;
            if self.spec_vote_slot(pslot, voter) is None || self.spec_treasury_slot(pslot)
                is None {
                Some(MarketError::SlotUnavailable)
            } else {
                let vslot = self.spec_vote_slot(pslot, voter)->0;
                let tslot = self.spec_treasury_slot(pslot)->0;
                if !self.polls@.contains_key(pslot) {
                    Some(MarketError::RecordMissing)
                } else if !self.escrows@.contains_key(tslot) {
                    Some(MarketError::RecordMissing)
                } else if !self.users@.contains_key(uslot) {
                    Some(MarketError::RecordMissing)
                } else if self.votes@.contains_key(vslot) && !(self.votes@[vslot].voter == voter
                    && self.votes@[vslot].poll == pslot && self.votes@[vslot].votes_per_option@.len()
                    == self.polls@[pslot].options@.len()) {
                    Some(MarketError::RecordMismatch)
                } else if self.users@[uslot].authority != voter || voter.is_zero() {
                    Some(MarketError::RecordMismatch)
                } else {
                    let prior_coins = if self.votes@.contains_key(vslot) {
                        crate::vote::votes_of(self.votes@[vslot], option_index as int)
                    } else {
                        0
                    };
                    let prior_staked = if self.votes@.contains_key(vslot) {
                        self.votes@[vslot].total_staked_cents
                    } else {
                        0u64
                    };
                    match crate::vote::cast_vote_error_at(
                        self.polls@[pslot],
                        prior_coins,
                        prior_staked,
                        self.users@[uslot],
                        self.escrows@[tslot],
                        voter,
                        option_index,
                        num_coins,
                        now,
                    ) {
                        Some(e) => Some(MarketError::Vote(e)),
                        None => None,
                    }
                }
            }
        }
    }

    /// Buys option coins on a poll: locates the poll, escrow, voter profile
    /// and vote record at their derived slots, then casts the vote — the
    /// cost moves from the voter's balance into the escrow, the tallies grow,
    /// and the vote record is created on first use.  Returns the cost.
    pub fn cast_vote(
        &mut self,
        voter: AccountKey,
        creator: AccountKey,
        poll_id: u64,
        option_index: u8,
        num_coins: u64,
        now: i64,
    ) -> (r: Result<u64, MarketError>)
        requires
            old(self).wf(),
        ensures
            final(self).wf(),
            final(self).same_programs(*old(self)),
            match r {
                Ok(cost) => {
                    &&& old(self).cast_vote_check(
                        voter,
                        creator,
                        poll_id,
                        option_index,
                        num_coins,
                        now,
                    ) is None
                    &&& ({
                        let pslot = old(self).spec_poll_slot(creator, poll_id)->0;
                        let uslot = old(self).spec_user_slot(voter)->0;
                        let vslot = old(self).spec_vote_slot(pslot, voter)->0;
                        let tslot = old(self).spec_treasury_slot(pslot)->0;
                        let poll0 = old(self).polls@[pslot];
                        let user0 = old(self).users@[uslot];
                        let escrow0 = old(self).escrows@[tslot];
                        &&& cost == num_coins * poll0.unit_price_cents
                        &&& final(self).users@ == old(self).users@.insert(
                            uslot,
                            UserAccount {
                                demo_balance: (user0.demo_balance - cost) as u64,
                                total_votes: (user0.total_votes + num_coins) as u64,
                                ..user0
                            },
                        )
                        &&& final(self).escrows@ == old(self).escrows@.insert(
                            tslot,
                            Escrow { spendable: (escrow0.spendable + cost) as u64, ..escrow0 },
                        )
                        &&& final(self).polls@.dom() == old(self).polls@.dom()
                        &&& final(self).polls@.remove(pslot) == old(self).polls@.remove(pslot)
                        &&& ({
                            let p1 = final(self).polls@[pslot];
                            &&& crate::poll::fixed_fields_eq(p1, poll0)
                            &&& p1.status == poll0.status
                            &&& p1.winning_option == poll0.winning_option
                            &&& p1.vote_counts@ == poll0.vote_counts@.update(
                                option_index as int,
                                (poll0.vote_counts@[option_index as int] + num_coins) as u64,
                            )
                            &&& p1.total_pool_cents == poll0.total_pool_cents + cost
                        })
                        &&& final(self).votes@.dom() == old(self).votes@.dom().insert(vslot)
                        &&& final(self).votes@.remove(vslot) == old(self).votes@.remove(vslot)
                        &&& ({
                            let v1 = final(self).votes@[vslot];
                            let prior_staked = if old(self).votes@.contains_key(vslot) {
                                old(self).votes@[vslot].total_staked_cents
                            } else {
                                0u64
                            };
                            &&& v1.poll == pslot
                            &&& v1.voter == voter
                            &&& v1.votes_per_option@.len() == poll0.options@.len()
                            &&& (forall|i: int|
                                #[trigger] crate::vote::votes_of(v1, i) == (if old(
                                    self,
                                ).votes@.contains_key(vslot) {
                                    crate::vote::votes_of(old(self).votes@[vslot], i)
                                } else {
                                    0
                                }) + (if i == option_index as int {
                                    num_coins as int
                                } else {
                                    0
                                }))
                            &&& v1.total_staked_cents == prior_staked + cost
                            &&& v1.claimed == (if old(self).votes@.contains_key(vslot) {
                                old(self).votes@[vslot].claimed
                            } else {
                                false
                            })
                        })
                    })
                },
                Err(e) => {
                    &&& old(self).cast_vote_check(
                        voter,
                        creator,
                        poll_id,
                        option_index,
                        num_coins,
                        now,
                    ) == Some(e)
                    &&& final(self).users@ == old(self).users@
                    &&& final(self).polls@ == old(self).polls@
                    &&& final(self).votes@ == old(self).votes@
                    &&& final(self).escrows@ == old(self).escrows@
                },
            },
    {
        let poll_slot: AccountKey = match derive_poll_slot(&self.poll_program, &creator, poll_id) {
            Some(p) => p.0,
            None => {
                return Err(MarketError::SlotUnavailable);
            },
        };
        let user_slot: AccountKey = match derive_user_slot(&self.user_program, &voter) {
            Some(p) => p.0,
            None => {
                return Err(MarketError::SlotUnavailable);
            },
        };
        proof {
            lemma_key_bytes_roundtrip(poll_slot);
            lemma_key_bytes_roundtrip(user_slot);
        }
        let vote_slot: AccountKey = match derive_vote_slot(&self.vote_program, &poll_slot, &voter) {
            Some(p) => p.0,
            None => {
                return Err(MarketError::SlotUnavailable);
            },
        };
        let treasury_slot: AccountKey = match derive_treasury_slot(&self.poll_program, &poll_slot) {
            Some(p) => p.0,
            None => {
                return Err(MarketError::SlotUnavailable);
            },
        };
        proof {
            lemma_key_bytes_roundtrip(vote_slot);
            lemma_key_bytes_roundtrip(treasury_slot);
        }
        if !self.polls.contains_key(&poll_slot) {
            return Err(MarketError::RecordMissing);
        }
        if !self.escrows.contains_key(&treasury_slot) {
            return Err(MarketError::RecordMissing);
        }
        let user0: UserAccount = match self.users.get(&user_slot) {
            Some(u) => *u,
            None => {
                return Err(MarketError::RecordMissing);
            },
        };
        let vote_existed: bool = self.votes.contains_key(&vote_slot);
        if vote_existed {
            let stored = self.votes.get(&vote_slot);
            let ok_binding: bool = match stored {
                Some(v) => {
                    let poll_ref = self.polls.get(&poll_slot);
                    match poll_ref {
                        Some(p) => v.voter == voter && v.poll == poll_slot
                            && v.votes_per_option.len() == p.options.len(),
                        None => false,
                    }
                },
                None => false,
            };
            if !ok_binding {
                return Err(MarketError::RecordMismatch);
            }
        }
        if !(user0.authority == voter) || voter.is_unset() {
            return Err(MarketError::RecordMismatch);
        }
        let mut poll: PollAccount = match self.polls.take(&poll_slot) {
            Some(p) => p,
            None => {
                assert(false);
                return Err(MarketError::RecordMissing);
            },
        };
        let mut escrow: Escrow = match self.escrows.get(&treasury_slot) {
            Some(e) => *e,
            None => {
                assert(false);
                return Err(MarketError::RecordMissing);
            },
        };
        let mut vote: VoteAccount = if vote_existed {
            match self.votes.take(&vote_slot) {
                Some(v) => v,
                None => {
                    assert(false);
                    VoteAccount::blank()
                },
            }
        } else {
            VoteAccount::blank()
        };
        let mut user: UserAccount = user0;
        let outcome = crate::vote::cast_vote(
            &mut poll,
            &mut vote,
            &mut user,
            &mut escrow,
            poll_slot,
            voter,
            option_index,
            num_coins,
            now,
        );
        match outcome {
            Ok(cost) => {
                self.polls.upsert(poll_slot, poll);
                self.votes.upsert(vote_slot, vote);
                self.users.upsert(user_slot, user);
                self.escrows.upsert(treasury_slot, escrow);
                proof {
                    assert(final(self).polls@.dom() =~= old(self).polls@.dom());
                    assert(final(self).polls@.remove(poll_slot) =~= old(self).polls@.remove(
                        poll_slot,
                    ));
                    assert(final(self).votes@.dom() =~= old(self).votes@.dom().insert(vote_slot));
                    assert(final(self).votes@.remove(vote_slot) =~= old(self).votes@.remove(
                        vote_slot,
                    ));
                    assert(final(self).users@ =~= old(self).users@.insert(
                        user_slot,
                        final(self).users@[user_slot],
                    ));
                    assert(final(self).escrows@ =~= old(self).escrows@.insert(
                        treasury_slot,
                        final(self).escrows@[treasury_slot],
                    ));
                }
                Ok(cost)
            },
            Err(e) => {
                self.polls.upsert(poll_slot, poll);
                if vote_existed {
                    self.votes.upsert(vote_slot, vote);
                }
                proof {
                    assert(final(self).polls@ =~= old(self).polls@);
                    assert(final(self).votes@ =~= old(self).votes@);
                }
                Err(MarketError::Vote(e))
            },
        }
    }
    /// The first failure of a settlement, if any.
    pub open spec fn settle_poll_check(
        self,
        creator: AccountKey,
        poll_id: u64,
        now: i64,
    ) -> Option<MarketError> {
        if self.spec_poll_slot(creator, poll_id) is None || self.spec_user_slot(creator) is None {
            Some(MarketError::SlotUnavailable)
        } else {
            let pslot = self.spec_poll_slot(creator, poll_id)->0;
            let uslot = self.spec_user_slot(creator)->0;
            if self.spec_treasury_slot(pslot) is None {
                Some(MarketError::SlotUnavailable)
            } else {
                let tslot = self.spec_treasury_slot(pslot)->0;
                if !self.polls@.contains_key(pslot) {
                    Some(MarketError::RecordMissing)
                } else if !self.escrows@.contains_key(tslot) {
                    Some(MarketError::RecordMissing)
                } else if !self.users@.contains_key(uslot) {
                    Some(MarketError::RecordMissing)
                } else if self.polls@[pslot].creator != creator {
                    Some(MarketError::RecordMismatch)
                } else {
                    let poll = self.polls@[pslot];
                    let escrow = self.escrows@[tslot];
                    let payout: int = if sum_u64(poll.vote_counts@) != 0 {
                        poll.creator_reward_cents as int
                    } else {
                        escrow.spendable as int
                    };
                    if self.users@[uslot].demo_balance + payout > u64::MAX {
                        Some(MarketError::User(UserError::Overflow))
                    } else {
                        match crate::settlement::settle_error(poll, escrow, now) {
                            Some(e) => Some(MarketError::Settlement(e)),
                            None => None,
                        }
                    }
                }
            }
        }
    }

    /// Settles a poll after its end time (permissionless: any caller may
    /// crank it, naming the poll by creator and id).  The winner becomes the
    /// lowest index achieving the maximum tally, or stays unset exactly when
    /// no votes were cast; the creator reward — or, without votes, the whole
    /// remaining escrow — moves from the escrow to the creator's balance.
    /// Returns the creator payout.
    pub fn settle_poll(&mut self, creator: AccountKey, poll_id: u64, now: i64) -> (r: Result<
        u64,
        MarketError,
    >)
        requires
            old(self).wf(),
            now >= 0,
        ensures
            final(self).wf(),
            final(self).same_programs(*old(self)),
            final(self).votes@ == old(self).votes@,
            match r {
                Ok(payout) => {
                    &&& old(self).settle_poll_check(creator, poll_id, now) is None
                    &&& ({
                        let pslot = old(self).spec_poll_slot(creator, poll_id)->0;
                        let uslot = old(self).spec_user_slot(creator)->0;
                        let tslot = old(self).spec_treasury_slot(pslot)->0;
                        let poll0 = old(self).polls@[pslot];
                        let user0 = old(self).users@[uslot];
                        let escrow0 = old(self).escrows@[tslot];
                        &&& payout == (if sum_u64(poll0.vote_counts@) != 0 {
                            poll0.creator_reward_cents as int
                        } else {
                            escrow0.spendable as int
                        })
                        &&& final(self).users@ == old(self).users@.insert(
                            uslot,
                            UserAccount {
                                demo_balance: (user0.demo_balance + payout) as u64,
                                ..user0
                            },
                        )
                        &&& final(self).escrows@ == old(self).escrows@.insert(
                            tslot,
                            Escrow { spendable: (escrow0.spendable - payout) as u64, ..escrow0 },
                        )
                        &&& final(self).polls@.dom() == old(self).polls@.dom()
                        &&& final(self).polls@.remove(pslot) == old(self).polls@.remove(pslot)
                        &&& ({
                            let p1 = final(self).polls@[pslot];
                            &&& crate::poll::fixed_fields_eq(p1, poll0)
                            &&& p1.vote_counts == poll0.vote_counts
                            &&& p1.total_pool_cents == poll0.total_pool_cents
                            &&& p1.total_voters == poll0.total_voters
                            &&& p1.status == crate::poll::PollStatus::Settled
                            &&& (p1.winning_option is None <==> sum_u64(poll0.vote_counts@) == 0)
                            &&& (p1.winning_option matches Some(w)
                                ==> crate::settlement::is_winning_index(
                                poll0.vote_counts@,
                                w as int,
                            ))
                        })
                    })
                },
                Err(e) => {
                    &&& old(self).settle_poll_check(creator, poll_id, now) == Some(e)
                    &&& final(self).users@ == old(self).users@
                    &&& final(self).polls@ == old(self).polls@
                    &&& final(self).escrows@ == old(self).escrows@
                },
            },
    {
        let poll_slot: AccountKey = match derive_poll_slot(&self.poll_program, &creator, poll_id) {
            Some(p) => p.0,
            None => {
                return Err(MarketError::SlotUnavailable);
            },
        };
        let user_slot: AccountKey = match derive_user_slot(&self.user_program, &creator) {
            Some(p) => p.0,
            None => {
                return Err(MarketError::SlotUnavailable);
            },
        };
        proof {
            lemma_key_bytes_roundtrip(poll_slot);
            lemma_key_bytes_roundtrip(user_slot);
        }
        let treasury_slot: AccountKey = match derive_treasury_slot(&self.poll_program, &poll_slot) {
            Some(p) => p.0,
            None => {
                return Err(MarketError::SlotUnavailable);
            },
        };
        proof {
            lemma_key_bytes_roundtrip(treasury_slot);
        }
        if !self.polls.contains_key(&poll_slot) {
            return Err(MarketError::RecordMissing);
        }
        let escrow0: Escrow = match self.escrows.get(&treasury_slot) {
            Some(e) => *e,
            None => {
                return Err(MarketError::RecordMissing);
            },
        };
        let user0: UserAccount = match self.users.get(&user_slot) {
            Some(u) => *u,
            None => {
                return Err(MarketError::RecordMissing);
            },
        };
        let mut poll: PollAccount = match self.polls.take(&poll_slot) {
            Some(p) => p,
            None => {
                assert(false);
                return Err(MarketError::RecordMissing);
            },
        };
        if !(poll.creator == creator) {
            self.polls.upsert(poll_slot, poll);
            proof {
                assert(final(self).polls@ =~= old(self).polls@);
            }
            return Err(MarketError::RecordMismatch);
        }
        let expected_payout: u64 = if poll.has_votes() {
            poll.creator_reward_cents
        } else {
            escrow0.spendable
        };
        if user0.demo_balance > u64::MAX - expected_payout {
            self.polls.upsert(poll_slot, poll);
            proof {
                assert(final(self).polls@ =~= old(self).polls@);
            }
            return Err(MarketError::User(UserError::Overflow));
        }
        let mut escrow: Escrow = escrow0;
        let outcome = crate::settlement::settle_poll(&mut poll, &mut escrow, now);
        match outcome {
            Ok(payout) => {
                let paid = UserAccount { demo_balance: user0.demo_balance + payout, ..user0 };
                self.polls.upsert(poll_slot, poll);
                self.users.upsert(user_slot, paid);
                self.escrows.upsert(treasury_slot, escrow);
                proof {
                    assert(final(self).polls@.dom() =~= old(self).polls@.dom());
                    assert(final(self).polls@.remove(poll_slot) =~= old(self).polls@.remove(
                        poll_slot,
                    ));
                }
                Ok(payout)
            },
            Err(e) => {
                self.polls.upsert(poll_slot, poll);
                proof {
                    assert(final(self).polls@ =~= old(self).polls@);
                }
                Err(MarketError::Settlement(e))
            },
        }
    }
    /// What a claim without any stored vote record fails with: the guard it
    /// first hits with an empty record.
    pub open spec fn claim_error_absent(poll: PollAccount) -> SettlementError {
        if poll.status != crate::poll::PollStatus::Settled {
            SettlementError::NotSettled
        } else if poll.winning_option is None {
            SettlementError::NoVotes
        } else {
            SettlementError::NotAWinner
        }
    }

    /// The first failure of a reward claim, if any.
    pub open spec fn claim_reward_check(
        self,
        voter: AccountKey,
        creator: AccountKey,
        poll_id: u64,
    ) -> Option<MarketError> {
        if self.spec_poll_slot(creator, poll_id) is None || self.spec_user_slot(voter) is None {
            Some(MarketError::SlotUnavailable)
        } else {
            let pslot = self.spec_poll_slot(creator, poll_id)->0;
            let uslot = self.spec_user_slot(voter)->0;
            if self.spec_vote_slot(pslot, voter) is None || self.spec_treasury_slot(pslot)
                is None {
                Some(MarketError::SlotUnavailable)
            } else {
                let vslot = self.spec_vote_slot(pslot, voter)->0;
                let tslot = self.spec_treasury_slot(pslot)->0;
                if !self.polls@.contains_key(pslot) {
                    Some(MarketError::RecordMissing)
                } else if !self.escrows@.contains_key(tslot) {
                    Some(MarketError::RecordMissing)
                } else if !self.users@.contains_key(uslot) {
                    Some(MarketError::RecordMissing)
                } else if self.votes@.contains_key(vslot) && !(self.votes@[vslot].voter == voter
                    && self.votes@[vslot].poll == pslot) {
                    Some(MarketError::RecordMismatch)
                } else if self.votes@.contains_key(vslot) && (self.polls@[pslot].winning_option
                    matches Some(w) && crate::vote::votes_of(self.votes@[vslot], w as int)
                    > self.polls@[pslot].vote_counts@[w as int]) {
                    Some(MarketError::RecordMismatch)
                } else if !self.votes@.contains_key(vslot) {
                    Some(MarketError::Settlement(Self::claim_error_absent(self.polls@[pslot])))
                } else {
                    match crate::settlement::claim_error(
                        self.polls@[pslot],
                        self.votes@[vslot],
                        self.users@[uslot],
                        self.escrows@[tslot],
                    ) {
                        Some(e) => Some(MarketError::Settlement(e)),
                        None => None,
                    }
                }
            }
        }
    }

    /// Claims a winning voter's pro-rata reward on a settled poll: locates
    /// the poll, the voter's vote record and profile and the escrow at their
    /// derived slots, computes the reward, marks the record claimed and
    /// credits the balance.  Returns the reward.
    pub fn claim_reward(&mut self, voter: AccountKey, creator: AccountKey, poll_id: u64, now: i64) -> (r:
        Result<u64, MarketError>)
        requires
            old(self).wf(),
            now >= 0,
        ensures
            final(self).wf(),
            final(self).same_programs(*old(self)),
            final(self).polls@ == old(self).polls@,
            match r {
                Ok(reward) => {
                    &&& old(self).claim_reward_check(voter, creator, poll_id) is None
                    &&& ({
                        let pslot = old(self).spec_poll_slot(creator, poll_id)->0;
                        let uslot = old(self).spec_user_slot(voter)->0;
                        let vslot = old(self).spec_vote_slot(pslot, voter)->0;
                        let tslot = old(self).spec_treasury_slot(pslot)->0;
                        let poll0 = old(self).polls@[pslot];
                        let vote0 = old(self).votes@[vslot];
                        let user0 = old(self).users@[uslot];
                        let escrow0 = old(self).escrows@[tslot];
                        &&& poll0.winning_option matches Some(w) && reward
                            == crate::accounting::spec_reward(
                            vote0.votes_per_option@[w as int],
                            poll0.total_pool_cents,
                            poll0.vote_counts@[w as int],
                        )
                        &&& reward <= poll0.total_pool_cents
                        &&& final(self).votes@ == old(self).votes@.insert(
                            vslot,
                            VoteAccount { claimed: true, reward_amount: reward, ..vote0 },
                        )
                        &&& final(self).escrows@ == old(self).escrows@.insert(
                            tslot,
                            Escrow { spendable: (escrow0.spendable - reward) as u64, ..escrow0 },
                        )
                        &&& final(self).users@.dom() == old(self).users@.dom()
                        &&& final(self).users@.remove(uslot) == old(self).users@.remove(uslot)
                        &&& ({
                            let u1 = final(self).users@[uslot];
                            &&& u1.demo_balance == user0.demo_balance + reward
                            &&& u1.total_wins == crate::user::sat_add(user0.total_wins, 1)
                            &&& u1.total_winning_amount == crate::user::sat_add(
                                user0.total_winning_amount,
                                reward,
                            )
                            &&& u1.authority == user0.authority
                            &&& u1.total_votes == user0.total_votes
                        })
                    })
                },
                Err(e) => {
                    &&& old(self).claim_reward_check(voter, creator, poll_id) == Some(e)
                    &&& final(self).users@ == old(self).users@
                    &&& final(self).votes@ == old(self).votes@
                    &&& final(self).escrows@ == old(self).escrows@
                },
            },
    {
        let poll_slot: AccountKey = match derive_poll_slot(&self.poll_program, &creator, poll_id) {
            Some(p) => p.0,
            None => {
                return Err(MarketError::SlotUnavailable);
            },
        };
        let user_slot: AccountKey = match derive_user_slot(&self.user_program, &voter) {
            Some(p) => p.0,
            None => {
                return Err(MarketError::SlotUnavailable);
            },
        };
        proof {
            lemma_key_bytes_roundtrip(poll_slot);
            lemma_key_bytes_roundtrip(user_slot);
        }
        let vote_slot: AccountKey = match derive_vote_slot(&self.vote_program, &poll_slot, &voter) {
            Some(p) => p.0,
            None => {
                return Err(MarketError::SlotUnavailable);
            },
        };
        let treasury_slot: AccountKey = match derive_treasury_slot(&self.poll_program, &poll_slot) {
            Some(p) => p.0,
            None => {
                return Err(MarketError::SlotUnavailable);
            },
        };
        proof {
            lemma_key_bytes_roundtrip(vote_slot);
            lemma_key_bytes_roundtrip(treasury_slot);
        }
        if !self.polls.contains_key(&poll_slot) {
            return Err(MarketError::RecordMissing);
        }
        let escrow0: Escrow = match self.escrows.get(&treasury_slot) {
            Some(e) => *e,
            None => {
                return Err(MarketError::RecordMissing);
            },
        };
        let user0: UserAccount = match self.users.get(&user_slot) {
            Some(u) => *u,
            None => {
                return Err(MarketError::RecordMissing);
            },
        };
        let vote_existed: bool = self.votes.contains_key(&vote_slot);
        if vote_existed {
            let ok_binding: bool = match self.votes.get(&vote_slot) {
                Some(v) => v.voter == voter && v.poll == poll_slot,
                None => false,
            };
            if !ok_binding {
                return Err(MarketError::RecordMismatch);
            }
            let consistent: bool = match (self.votes.get(&vote_slot), self.polls.get(&poll_slot)) {
                (Some(v), Some(p)) => {
                    match p.winning_option {
                        Some(w) => {
                            let wi: usize = w as usize;
                            let held: u64 = if wi < v.votes_per_option.len() {
                                v.votes_per_option[wi]
                            } else {
                                0
                            };
                            held <= p.vote_counts[wi]
                        },
                        None => true,
                    }
                },
                _ => false,
            };
            if !consistent {
                return Err(MarketError::RecordMismatch);
            }
        }
        let mut vote: VoteAccount = if vote_existed {
            match self.votes.take(&vote_slot) {
                Some(v) => v,
                None => {
                    assert(false);
                    VoteAccount::blank()
                },
            }
        } else {
            VoteAccount::blank()
        };
        let mut user: UserAccount = user0;
        let mut escrow: Escrow = escrow0;
        let outcome = match self.polls.get(&poll_slot) {
            Some(poll_ref) => crate::settlement::claim_reward(
                poll_ref,
                &mut vote,
                &mut user,
                &mut escrow,
                now,
            ),
            None => {
                assert(false);
                Err(SettlementError::NotSettled)
            },
        };
        match outcome {
            Ok(reward) => {
                self.votes.upsert(vote_slot, vote);
                self.users.upsert(user_slot, user);
                self.escrows.upsert(treasury_slot, escrow);
                proof {
                    assert(final(self).users@.dom() =~= old(self).users@.dom());
                    assert(final(self).users@.remove(user_slot) =~= old(self).users@.remove(
                        user_slot,
                    ));
                }
                Ok(reward)
            },
            Err(e) => {
                if vote_existed {
                    self.votes.upsert(vote_slot, vote);
                }
                proof {
                    assert(final(self).votes@ =~= old(self).votes@);
                }
                Err(MarketError::Settlement(e))
            },
        }
    }
}

} // verus!

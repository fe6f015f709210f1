//! Error taxonomy of the market components.
//!
//! Each component reports its own error enum.  Validation errors are
//! caller-correctable; state errors mark a wrong lifecycle state; the
//! authorization errors are fatal; arithmetic errors come from checked math;
//! resource errors report missing funds.  Every operation is all-or-nothing:
//! on any error no field of any entity is mutated.

use vstd::prelude::*;

verus! {

/// Errors of the poll ledger.
#[derive(Clone, Copy, PartialEq, Eq, Structural, Debug)]
pub enum PollError {
    /// Poll title too long (max 64 chars).
    TitleTooLong,
    /// Poll description too long (max 256 chars).
    DescriptionTooLong,
    /// Category too long (max 32 chars).
    CategoryTooLong,
    /// Image reference too long (max 256 chars).
    ImageUrlTooLong,
    /// Must have between 2 and 6 options.
    InvalidOptionCount,
    /// Option label too long (max 32 chars).
    OptionLabelTooLong,
    /// Unit price must be greater than 0.
    InvalidUnitPrice,
    /// End time must be in the future.
    EndTimeInPast,
    /// Creator investment too low (must cover at least one coin).
    InvestmentTooLow,
    /// Poll is not active.
    PollNotActive,
    /// Poll has already ended.
    PollAlreadyEnded,
    /// Poll has not ended yet.
    PollNotEnded,
    /// Invalid option index.
    InvalidOption,
    /// Must buy at least one coin.
    ZeroCoins,
    /// Arithmetic overflow.
    Overflow,
    /// Insufficient funds.
    InsufficientFunds,
    /// Only the poll creator can perform this action.
    UnauthorizedNotCreator,
    /// Poll already has votes and cannot be modified.
    PollHasVotes,
    /// Option count mismatch with the existing poll.
    OptionCountMismatch,
    /// The invoking component is not on the endpoint's allow-list.
    UnauthorizedCaller,
}

/// Errors of the vote ledger.
#[derive(Clone, Copy, PartialEq, Eq, Structural, Debug)]
pub enum VoteError {
    /// Poll is not active.
    PollNotActive,
    /// Poll has ended.
    PollEnded,
    /// Invalid option index.
    InvalidOption,
    /// Must buy at least one option coin.
    ZeroCoins,
    /// Creator cannot vote on their own poll.
    CreatorCannotVote,
    /// Arithmetic overflow.
    Overflow,
    /// Insufficient funds for the vote.
    InsufficientFunds,
    /// Rewards already claimed.
    AlreadyClaimed,
    /// The invoking component is not on the endpoint's allow-list.
    UnauthorizedCaller,
}

/// Errors of the settlement component.
#[derive(Clone, Copy, PartialEq, Eq, Structural, Debug)]
pub enum SettlementError {
    /// Poll is not active.
    PollNotActive,
    /// Poll has not ended yet.
    PollNotEnded,
    /// Poll already settled.
    AlreadySettled,
    /// No votes were cast on this poll.
    NoVotes,
    /// Arithmetic overflow.
    Overflow,
    /// Poll not settled yet.
    NotSettled,
    /// The caller did not vote for the winning option.
    NotAWinner,
    /// Reward already claimed.
    AlreadyClaimed,
    /// The escrow's spendable balance cannot cover the payout.
    InsufficientEscrow,
}

/// Errors of the user ledger.
#[derive(Clone, Copy, PartialEq, Eq, Structural, Debug)]
pub enum UserError {
    /// Signup bonus already claimed.
    BonusAlreadyClaimed,
    /// Weekly reward not yet available.
    WeeklyRewardNotReady,
    /// Insufficient balance.
    InsufficientBalance,
    /// Arithmetic overflow.
    Overflow,
    /// Wrong signer for this profile.
    Unauthorized,
    /// The invoking component is not on the endpoint's allow-list.
    UnauthorizedCaller,
}

} // verus!

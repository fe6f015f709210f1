//! A prediction-market settlement engine.
//!
//! Users create polls with an initial stake, other participants buy weighted
//! option coins, and after a deadline a poll is settled by picking the option
//! with the most coins; winners then claim a pro-rata share of the pool.
//! All monetary values are integers in a minor currency unit (cents).
//!
//! The crate is organised around the entities of the market: polls, vote
//! records and user profiles, each a fixed-schema record stored at an address
//! derived deterministically from a namespace and seed values.  Privileged
//! cross-component mutations (recording a vote on the poll ledger, marking a
//! reward claimed) demand an explicit caller identity that is checked against
//! a fixed allow-list before any state changes.

pub mod accounting;
pub mod address;
pub mod errors;
pub mod keys;
pub mod market;
pub mod poll;
pub mod settlement;
pub mod store;
pub mod user;
pub mod vote;

pub use keys::AccountKey;
pub use keys::ComponentId;

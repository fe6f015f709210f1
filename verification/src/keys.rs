//! Identities: account keys and component identities.

use vstd::prelude::*;

verus! {

/// A 32-byte account key, held as four 64-bit little-endian words.
///
/// Keys identify principals (creators, voters) and storage slots.  The logic
/// only ever compares keys for equality and tests for the all-zero key, which
/// marks a record slot that has not been written yet.
#[derive(Clone, Copy, PartialEq, Eq, Structural, Debug)]
pub struct AccountKey {
    pub w0: u64,
    pub w1: u64,
    pub w2: u64,
    pub w3: u64,
}

impl AccountKey {
    /// True of the all-zero key, the sentinel for "no key recorded".
    pub open spec fn is_zero(self) -> bool {
        self.w0 == 0 && self.w1 == 0 && self.w2 == 0 && self.w3 == 0
    }

    /// The all-zero key.
    pub fn zero() -> (k: AccountKey)
        ensures
            k.is_zero(),
    {
        AccountKey { w0: 0, w1: 0, w2: 0, w3: 0 }
    }

    /// Whether this key is the all-zero sentinel.
    pub fn is_unset(&self) -> (b: bool)
        ensures
            b == self.is_zero(),
    {
        self.w0 == 0 && self.w1 == 0 && self.w2 == 0 && self.w3 == 0
    }
}

/// The identity of a deployed component of the market.
///
/// A privileged mutation endpoint declares exactly one allow-listed caller
/// component; at call time the invoking component's identity is checked
/// against that allow-list before any state is touched.  The end user's own
/// signature never substitutes for component-level authorization.
#[derive(Clone, Copy, PartialEq, Eq, Structural, Debug)]
pub enum ComponentId {
    /// The poll ledger: owns poll records.
    PollLedger,
    /// The vote ledger: owns vote records.
    VoteLedger,
    /// The user ledger: owns user profiles and balances.
    UserLedger,
    /// The settlement component: computes winners and rewards.
    Settlement,
}

} // verus!

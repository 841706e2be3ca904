//! The reasons for which the ledger rejects a call.

use vstd::prelude::*;

verus! {

/// Why a call was rejected. A rejected call leaves the ledger as it was.
#[derive(Clone, Copy, Debug, PartialEq, Eq, Structural)]
pub enum VoteError {
    /// The caller may not act for the organization.
    NotAuthorized,
    /// No vote is stored under the given vote id.
    VoteStateNotFound,
    /// No threshold is registered under the given threshold id.
    ThresholdNotFound,
    /// The voter holds no signal in this vote.
    NoSignalForVoter,
    /// The vote's last block has passed.
    VoteExpired,
    /// A bound of the threshold is larger than the signal minted for the vote.
    ThresholdExceedsBounds,
    /// The voter already holds the direction that was submitted.
    NoChange,
    /// The change of direction would leave the tally in a state no sequence
    /// of votes can produce, such as going back to not having voted.
    UnsupportedTransition,
    /// The organization has no flat list of members to mint equal signal for.
    EqualMembershipUnavailable,
    /// The organization has no list of stakes to mint weighted signal for.
    WeightedMembershipUnavailable,
}

} // verus!

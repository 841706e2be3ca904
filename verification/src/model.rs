//! The ledger as a mathematical value, and each of its transitions as a
//! function from the value before to the value after.

use crate::error::VoteError;
use crate::group::{members_of, stake_sum, valid_shares, Snapshot};
use crate::permill::Permill;
use crate::tally::signal_sum;
use crate::threshold::{
    from_permill_to_signal_spec, valid_signal_threshold_spec, Threshold, ThresholdConfig,
    ThresholdInput, XorThreshold,
};
use crate::unique_id::next_unused;
use crate::vote::{Cid, Vote, VoteOutcome, VoteState, VoterView};
use vstd::prelude::*;

verus! {

/// What a ledger holds.
#[verifier::ext_equal]
pub struct LedgerView {
    /// The id given to the vote that was opened last.
    pub vote_id_counter: u64,
    /// The id given to the threshold that was registered last.
    pub threshold_id_counter: u64,
    /// The number of votes opened so far.
    pub open_vote_counter: u32,
    /// The aggregate state of each vote, by vote id.
    pub vote_states: Map<u64, VoteState>,
    /// The registered thresholds, by threshold id.
    pub vote_thresholds: Map<u64, ThresholdConfig>,
    /// The signal minted for each vote, by vote id.
    pub total_signal_issuance: Map<u64, u64>,
    /// Each member's record in each vote, by vote id and member.
    pub vote_logger: Map<(u64, u64), Vote>,
    /// For each vote, the members that signal was minted for, in the order
    /// of minting. This is bookkeeping for proofs and is not stored.
    pub rosters: Map<u64, Seq<u64>>,
    /// For each vote, the signal that changes of topic have taken out of
    /// its tallies. This is bookkeeping for proofs and is not stored.
    pub cleared: Map<u64, ClearedSignal>,
}

/// The signal that setting the tallies back to zero has taken out of them,
/// added up over all the times it was done.
pub struct ClearedSignal {
    pub in_favor: nat,
    pub against: nat,
}

impl ClearedSignal {
    /// Nothing was taken out.
    pub open spec fn none() -> ClearedSignal {
        ClearedSignal { in_favor: 0, against: 0 }
    }

    /// What was taken out once the tallies of `state` are set back to zero
    /// as well.
    pub open spec fn and_tallies_of(self, state: VoteState) -> ClearedSignal {
        ClearedSignal {
            in_favor: self.in_favor + state.in_favor as nat,
            against: self.against + state.against as nat,
        }
    }
}

/// The records of one vote, in the order of its roster.
pub open spec fn ballots(
    logger: Map<(u64, u64), Vote>,
    vote_id: u64,
    roster: Seq<u64>,
) -> Seq<Vote> {
    roster.map_values(|member: u64| logger[(vote_id, member)])
}

/// The records after minting for a vote: one unvoted record per pair, with
/// the pair's stake as its magnitude.
pub open spec fn mint_into(
    logger: Map<(u64, u64), Vote>,
    vote_id: u64,
    shares: Seq<(u64, u64)>,
) -> Map<(u64, u64), Vote>
    decreases shares.len(),
{
    if shares.len() == 0 {
        logger
    } else {
        mint_into(logger, vote_id, shares.drop_last()).insert(
            (vote_id, shares.last().0),
            Vote::minted(shares.last().1),
        )
    }
}

/// The last block of a vote opened at `now` for `duration` blocks.
pub open spec fn ends_after(now: u64, duration: Option<u64>) -> Option<u64> {
    match duration {
        Some(blocks) => Some((now + blocks) as u64),
        None => None,
    }
}

/// Each tally, together with what was cleared from it, equals the signal of
/// the ballots that hold its direction.
pub open spec fn tallies_match(state: VoteState, cleared: ClearedSignal, cast: Seq<Vote>) -> bool {
    &&& state.in_favor + cleared.in_favor == signal_sum(cast, Some(VoterView::InFavor))
    &&& state.against + cleared.against == signal_sum(cast, Some(VoterView::Against))
}

impl LedgerView {
    /// The ledger before any call.
    pub open spec fn empty() -> LedgerView {
        LedgerView {
            vote_id_counter: 0,
            threshold_id_counter: 0,
            open_vote_counter: 0,
            vote_states: Map::empty(),
            vote_thresholds: Map::empty(),
            total_signal_issuance: Map::empty(),
            vote_logger: Map::empty(),
            rosters: Map::empty(),
            cleared: Map::empty(),
        }
    }

    /// The records of one vote, in the order of minting.
    pub open spec fn ballots_of(self, vote_id: u64) -> Seq<Vote> {
        ballots(self.vote_logger, vote_id, self.rosters[vote_id])
    }

    /// What holds of a single vote in a consistent ledger: its tallies and
    /// threshold stay within the minted signal, the minted signal is the sum
    /// of the magnitudes of its records, there is one record per member of
    /// its roster, and each tally is the sum of the magnitudes of the
    /// records that hold its direction, less what was cleared from it.
    pub open spec fn vote_consistent(self, vote_id: u64) -> bool {
        let state = self.vote_states[vote_id];
        let roster = self.rosters[vote_id];
        &&& state.wf()
        &&& self.total_signal_issuance[vote_id] == state.total_possible_turnout
        &&& roster.no_duplicates()
        &&& forall|member: u64|
            #![trigger roster.contains(member)]
            #![trigger self.vote_logger.contains_key((vote_id, member))]
            self.vote_logger.contains_key((vote_id, member)) <==> roster.contains(member)
        &&& signal_sum(self.ballots_of(vote_id), None) == state.total_possible_turnout
        &&& tallies_match(state, self.cleared[vote_id], self.ballots_of(vote_id))
    }

    /// What holds of every ledger that the transitions can reach.
    pub open spec fn wf(self) -> bool {
        &&& self.vote_states.dom().finite()
        &&& self.vote_states.dom().len() == self.open_vote_counter
        &&& self.total_signal_issuance.dom() == self.vote_states.dom()
        &&& self.rosters.dom() == self.vote_states.dom()
        &&& self.cleared.dom() == self.vote_states.dom()
        &&& forall|key: (u64, u64)| #[trigger]
            self.vote_logger.contains_key(key) ==> self.vote_states.contains_key(key.0)
        &&& forall|vote_id: u64| #[trigger]
            self.vote_states.contains_key(vote_id) ==> self.vote_consistent(vote_id)
        &&& self.vote_thresholds.dom().finite()
        &&& forall|id: u64| #[trigger]
            self.vote_thresholds.contains_key(id) ==> self.vote_thresholds[id].id == id
    }

    /// The id that the next registered threshold gets.
    pub open spec fn new_threshold_id(self) -> u64 {
        next_unused(self.threshold_id_counter, self.vote_thresholds.dom())
    }

    /// The ledger after registering a threshold.
    pub open spec fn register_threshold(self, input: ThresholdInput) -> LedgerView {
        let id = self.new_threshold_id();
        LedgerView {
            threshold_id_counter: id,
            vote_thresholds: self.vote_thresholds.insert(
                id,
                ThresholdConfig { id, org: input.org, threshold: input.threshold },
            ),
            ..self
        }
    }

    /// The id that the next opened vote gets.
    pub open spec fn new_vote_id(self) -> u64 {
        next_unused(self.vote_id_counter, self.vote_states.dom())
    }

    /// What opening a vote returns: the new vote's id, or the error for a
    /// group that is not known or a threshold beyond the signal to mint.
    pub open spec fn open_vote_result(
        self,
        equal: bool,
        shares: Option<Seq<(u64, u64)>>,
        threshold: Threshold<u64>,
    ) -> Result<u64, VoteError> {
        match shares {
            None => Err(Snapshot::unavailable_spec(equal)),
            Some(shares) => if valid_signal_threshold_spec(threshold, stake_sum(shares) as u64) {
                Ok(self.new_vote_id())
            } else {
                Err(VoteError::ThresholdExceedsBounds)
            },
        }
    }

    /// The ledger after minting signal for a vote: one unvoted record per
    /// pair of `shares`, the sum of the stakes as the vote's issuance, the
    /// members as its roster, and nothing cleared.
    pub open spec fn mint(self, vote_id: u64, shares: Seq<(u64, u64)>) -> LedgerView {
        LedgerView {
            total_signal_issuance: self.total_signal_issuance.insert(
                vote_id,
                stake_sum(shares) as u64,
            ),
            vote_logger: mint_into(self.vote_logger, vote_id, shares),
            rosters: self.rosters.insert(vote_id, members_of(shares)),
            cleared: self.cleared.insert(vote_id, ClearedSignal::none()),
            ..self
        }
    }

    /// The ledger with a new vote under `vote_id`: signal minted for each
    /// pair of `shares`, empty tallies, and one more vote counted.
    pub open spec fn with_new_vote(
        self,
        vote_id: u64,
        topic: Option<Cid>,
        shares: Seq<(u64, u64)>,
        threshold: Threshold<u64>,
        now: u64,
        ends: Option<u64>,
    ) -> LedgerView {
        LedgerView {
            vote_id_counter: vote_id,
            open_vote_counter: (self.open_vote_counter + 1) as u32,
            vote_states: self.vote_states.insert(
                vote_id,
                VoteState::fresh(topic, stake_sum(shares) as u64, threshold, now, ends),
            ),
            ..self.mint(vote_id, shares)
        }
    }

    /// The ledger after opening a vote with a threshold in signal. A
    /// rejected call leaves it as it was.
    pub open spec fn open_vote(
        self,
        now: u64,
        topic: Option<Cid>,
        equal: bool,
        shares: Option<Seq<(u64, u64)>>,
        threshold: Threshold<u64>,
        duration: Option<u64>,
    ) -> LedgerView {
        match self.open_vote_result(equal, shares, threshold) {
            Ok(vote_id) => self.with_new_vote(
                vote_id,
                topic,
                shares->0,
                threshold,
                now,
                ends_after(now, duration),
            ),
            Err(_) => self,
        }
    }

    /// The threshold in signal that a fractional one stands for, given the
    /// signal that would be minted. Without a known group there is nothing
    /// to resolve, and the bounds do not matter.
    pub open spec fn resolve(
        shares: Option<Seq<(u64, u64)>>,
        threshold: Threshold<Permill>,
    ) -> Threshold<u64> {
        match shares {
            Some(shares) => from_permill_to_signal_spec(threshold, stake_sum(shares) as u64),
            None => Threshold { in_favor: 0, against: None },
        }
    }

    /// What opening a vote with a fractional threshold returns.
    pub open spec fn open_percent_vote_result(
        self,
        equal: bool,
        shares: Option<Seq<(u64, u64)>>,
        threshold: Threshold<Permill>,
    ) -> Result<u64, VoteError> {
        self.open_vote_result(equal, shares, LedgerView::resolve(shares, threshold))
    }

    /// The ledger after opening a vote with a fractional threshold: as with
    /// the threshold in signal that it resolves to.
    pub open spec fn open_percent_vote(
        self,
        now: u64,
        topic: Option<Cid>,
        equal: bool,
        shares: Option<Seq<(u64, u64)>>,
        threshold: Threshold<Permill>,
        duration: Option<u64>,
    ) -> LedgerView {
        self.open_vote(
            now,
            topic,
            equal,
            shares,
            LedgerView::resolve(shares, threshold),
            duration,
        )
    }

    /// What opening a vote by a registered threshold returns.
    pub open spec fn invoke_threshold_result(
        self,
        threshold_id: u64,
        shares: Option<Seq<(u64, u64)>>,
    ) -> Result<u64, VoteError> {
        if !self.vote_thresholds.contains_key(threshold_id) {
            Err(VoteError::ThresholdNotFound)
        } else {
            let config = self.vote_thresholds[threshold_id];
            match config.threshold {
                XorThreshold::Signal(threshold) => self.open_vote_result(
                    config.org is Equal,
                    shares,
                    threshold,
                ),
                XorThreshold::Percent(threshold) => self.open_percent_vote_result(
                    config.org is Equal,
                    shares,
                    threshold,
                ),
            }
        }
    }

    /// The ledger after opening a vote by a registered threshold.
    pub open spec fn invoke_threshold(
        self,
        now: u64,
        threshold_id: u64,
        topic: Option<Cid>,
        shares: Option<Seq<(u64, u64)>>,
        duration: Option<u64>,
    ) -> LedgerView {
        if !self.vote_thresholds.contains_key(threshold_id) {
            self
        } else {
            let config = self.vote_thresholds[threshold_id];
            match config.threshold {
                XorThreshold::Signal(threshold) => self.open_vote(
                    now,
                    topic,
                    config.org is Equal,
                    shares,
                    threshold,
                    duration,
                ),
                XorThreshold::Percent(threshold) => self.open_percent_vote(
                    now,
                    topic,
                    config.org is Equal,
                    shares,
                    threshold,
                    duration,
                ),
            }
        }
    }

    /// What submitting a vote returns. The checks are made in this order:
    /// the vote exists, it has not expired, the voter holds signal in it,
    /// the direction is new, and the tally admits the change.
    pub open spec fn vote_on_proposal_result(
        self,
        now: u64,
        vote_id: u64,
        voter: u64,
        direction: VoterView,
    ) -> Result<(), VoteError> {
        if !self.vote_states.contains_key(vote_id) {
            Err(VoteError::VoteStateNotFound)
        } else if self.vote_states[vote_id].is_expired_spec(now) {
            Err(VoteError::VoteExpired)
        } else if !self.vote_logger.contains_key((vote_id, voter)) {
            Err(VoteError::NoSignalForVoter)
        } else if self.vote_logger[(vote_id, voter)].direction == direction {
            Err(VoteError::NoChange)
        } else if self.vote_states[vote_id].apply_spec(
            self.vote_logger[(vote_id, voter)].magnitude,
            self.vote_logger[(vote_id, voter)].direction,
            direction,
        ) is None {
            Err(VoteError::UnsupportedTransition)
        } else {
            Ok(())
        }
    }

    /// The ledger after submitting a vote: the voter's record holds the new
    /// direction and justification, and the vote's tallies have moved by the
    /// voter's magnitude. A rejected call leaves the ledger as it was.
    pub open spec fn vote_on_proposal(
        self,
        now: u64,
        vote_id: u64,
        voter: u64,
        direction: VoterView,
        justification: Option<Cid>,
    ) -> LedgerView {
        if self.vote_on_proposal_result(now, vote_id, voter, direction) is Ok {
            let record = self.vote_logger[(vote_id, voter)];
            LedgerView {
                vote_states: self.vote_states.insert(
                    vote_id,
                    self.vote_states[vote_id].apply_spec(
                        record.magnitude,
                        record.direction,
                        direction,
                    )->0,
                ),
                vote_logger: self.vote_logger.insert(
                    (vote_id, voter),
                    record.with_view(direction, justification),
                ),
                ..self
            }
        } else {
            self
        }
    }

    /// The ledger after extending a vote to last until `blocks_from_now`
    /// blocks after `now`, if that is later than its last block. Unknown
    /// votes and votes without a last block are left alone.
    pub open spec fn extend_vote_length(
        self,
        now: u64,
        vote_id: u64,
        blocks_from_now: u64,
    ) -> LedgerView {
        if self.vote_states.contains_key(vote_id) {
            LedgerView {
                vote_states: self.vote_states.insert(
                    vote_id,
                    self.vote_states[vote_id].extend_to_spec((now + blocks_from_now) as u64),
                ),
                ..self
            }
        } else {
            self
        }
    }

    /// The ledger after replacing a vote's topic, with the tallies set to
    /// zero if `clear` is set. The members' records stay as they are.
    pub open spec fn update_vote_topic(self, vote_id: u64, new_topic: Cid, clear: bool) -> LedgerView {
        if self.vote_states.contains_key(vote_id) {
            let state = self.vote_states[vote_id];
            if clear {
                LedgerView {
                    vote_states: self.vote_states.insert(
                        vote_id,
                        state.with_topic_cleared(new_topic),
                    ),
                    cleared: self.cleared.insert(
                        vote_id,
                        self.cleared[vote_id].and_tallies_of(state),
                    ),
                    ..self
                }
            } else {
                LedgerView {
                    vote_states: self.vote_states.insert(vote_id, state.with_topic(new_topic)),
                    ..self
                }
            }
        } else {
            self
        }
    }

    /// What a call that needs an existing vote returns.
    pub open spec fn found(self, vote_id: u64) -> Result<(), VoteError> {
        if self.vote_states.contains_key(vote_id) {
            Ok(())
        } else {
            Err(VoteError::VoteStateNotFound)
        }
    }

    /// The outcome of a vote, from its tallies and threshold alone.
    pub open spec fn get_vote_outcome(self, vote_id: u64) -> Result<VoteOutcome, VoteError> {
        if self.vote_states.contains_key(vote_id) {
            Ok(self.vote_states[vote_id].outcome_spec())
        } else {
            Err(VoteError::VoteStateNotFound)
        }
    }

    /// Whether a vote's last block lies before `now`.
    pub open spec fn is_expired(self, now: u64, vote_id: u64) -> Result<bool, VoteError> {
        if self.vote_states.contains_key(vote_id) {
            Ok(self.vote_states[vote_id].is_expired_spec(now))
        } else {
            Err(VoteError::VoteStateNotFound)
        }
    }
}

/// A call that changes the ledger, with everything that decides its effect:
/// its arguments, the block height at which it is made, and, where a vote is
/// opened, what the registry reports about the organization's members.
pub enum Call {
    GenerateUniqueId,
    RegisterThreshold { input: ThresholdInput },
    OpenVote {
        now: u64,
        topic: Option<Cid>,
        equal: bool,
        shares: Option<Seq<(u64, u64)>>,
        threshold: Threshold<u64>,
        duration: Option<u64>,
    },
    OpenPercentVote {
        now: u64,
        topic: Option<Cid>,
        equal: bool,
        shares: Option<Seq<(u64, u64)>>,
        fraction: Threshold<Permill>,
        duration: Option<u64>,
    },
    InvokeThreshold {
        now: u64,
        threshold_id: u64,
        topic: Option<Cid>,
        shares: Option<Seq<(u64, u64)>>,
        duration: Option<u64>,
    },
    VoteOnProposal {
        now: u64,
        vote_id: u64,
        voter: u64,
        direction: VoterView,
        justification: Option<Cid>,
    },
    ExtendVoteLength { now: u64, vote_id: u64, blocks_from_now: u64 },
    UpdateVoteTopic { vote_id: u64, new_topic: Cid, clear: bool },
}

impl Call {
    /// Whether the call can be made on the ledger: a reported group names
    /// no member twice and its stakes add up to an amount of signal, block
    /// heights stay within their type, and so does the count of votes.
    pub open spec fn admissible(self, ledger: LedgerView) -> bool {
        match self {
            Call::OpenVote { now, shares, duration, .. } => Call::can_open(
                ledger,
                now,
                shares,
                duration,
            ),
            Call::OpenPercentVote { now, shares, duration, .. } => Call::can_open(
                ledger,
                now,
                shares,
                duration,
            ),
            Call::InvokeThreshold { now, shares, duration, .. } => Call::can_open(
                ledger,
                now,
                shares,
                duration,
            ),
            Call::ExtendVoteLength { now, blocks_from_now, .. } => now + blocks_from_now
                <= u64::MAX,
            _ => true,
        }
    }

    /// Whether the ledger rejects the call, that is, answers it with an
    /// error. Drawing an id and registering a threshold are never rejected.
    pub open spec fn rejected(self, ledger: LedgerView) -> bool {
        match self {
            Call::GenerateUniqueId => false,
            Call::RegisterThreshold { .. } => false,
            Call::OpenVote { equal, shares, threshold, .. } => ledger.open_vote_result(
                equal,
                shares,
                threshold,
            ) is Err,
            Call::OpenPercentVote {
                equal,
                shares,
                fraction,
                ..
            } => ledger.open_percent_vote_result(equal, shares, fraction) is Err,
            Call::InvokeThreshold { threshold_id, shares, .. } => ledger.invoke_threshold_result(
                threshold_id,
                shares,
            ) is Err,
            Call::VoteOnProposal {
                now,
                vote_id,
                voter,
                direction,
                ..
            } => ledger.vote_on_proposal_result(now, vote_id, voter, direction) is Err,
            Call::ExtendVoteLength { vote_id, .. } => ledger.found(vote_id) is Err,
            Call::UpdateVoteTopic { vote_id, .. } => ledger.found(vote_id) is Err,
        }
    }

    /// Whether a vote can be opened on the ledger with these arguments.
    pub open spec fn can_open(
        ledger: LedgerView,
        now: u64,
        shares: Option<Seq<(u64, u64)>>,
        duration: Option<u64>,
    ) -> bool {
        &&& shares matches Some(s) ==> valid_shares(s)
        &&& ledger.open_vote_counter < u32::MAX
        &&& duration matches Some(blocks) ==> now + blocks <= u64::MAX
    }
}

impl LedgerView {
    /// The ledger after a call.
    pub open spec fn step(self, call: Call) -> LedgerView {
        match call {
            Call::GenerateUniqueId => LedgerView { vote_id_counter: self.new_vote_id(), ..self },
            Call::RegisterThreshold { input } => self.register_threshold(input),
            Call::OpenVote { now, topic, equal, shares, threshold, duration } => self.open_vote(
                now,
                topic,
                equal,
                shares,
                threshold,
                duration,
            ),
            Call::OpenPercentVote {
                now,
                topic,
                equal,
                shares,
                fraction,
                duration,
            } => self.open_percent_vote(now, topic, equal, shares, fraction, duration),
            Call::InvokeThreshold {
                now,
                threshold_id,
                topic,
                shares,
                duration,
            } => self.invoke_threshold(now, threshold_id, topic, shares, duration),
            Call::VoteOnProposal {
                now,
                vote_id,
                voter,
                direction,
                justification,
            } => self.vote_on_proposal(now, vote_id, voter, direction, justification),
            Call::ExtendVoteLength { now, vote_id, blocks_from_now } => self.extend_vote_length(
                now,
                vote_id,
                blocks_from_now,
            ),
            Call::UpdateVoteTopic { vote_id, new_topic, clear } => self.update_vote_topic(
                vote_id,
                new_topic,
                clear,
            ),
        }
    }
}

} // verus!

//! A member's ballot and the aggregate state of one vote, with the pure
//! transitions between aggregate states.

use crate::threshold::{valid_signal_threshold_spec, Threshold};
use vstd::prelude::*;

verus! {

/// A reference to content kept elsewhere. The ledger stores and returns it
/// and never looks inside.
#[derive(Clone, Copy, Debug, PartialEq, Eq, Structural)]
pub struct Cid(pub u64);

/// A member's stance in one vote.
#[derive(Clone, Copy, Debug, PartialEq, Eq, Structural)]
pub enum VoterView {
    /// Signal was minted and the member has not voted.
    Uninitialized,
    InFavor,
    Against,
    /// The member took part without backing either side.
    Abstain,
}

/// What the tally says of a vote.
#[derive(Clone, Copy, Debug, PartialEq, Eq, Structural)]
pub enum VoteOutcome {
    /// Neither bound has been reached.
    Pending,
    /// The signal in favor has reached its bound.
    Passed,
    /// The signal against has reached its bound and the signal in favor has not.
    Rejected,
}

/// The signal that `direction` adds to the tally in favor.
pub open spec fn in_favor_share(direction: VoterView, magnitude: u64) -> int {
    if direction == VoterView::InFavor {
        magnitude as int
    } else {
        0
    }
}

/// The signal that `direction` adds to the tally against.
pub open spec fn against_share(direction: VoterView, magnitude: u64) -> int {
    if direction == VoterView::Against {
        magnitude as int
    } else {
        0
    }
}

/// One member's record in one vote.
#[derive(Clone, Copy, Debug, PartialEq, Eq)]
pub struct Vote {
    /// The signal minted for the member. It is fixed when the vote opens.
    pub magnitude: u64,
    pub direction: VoterView,
    /// An optional reference to the member's reasons.
    pub justification: Option<Cid>,
}

impl Vote {
    pub fn new(magnitude: u64, direction: VoterView, justification: Option<Cid>) -> (r: Vote)
        ensures
            r == (Vote { magnitude, direction, justification }),
    {
        Vote { magnitude, direction, justification }
    }

    /// The record as it stands right after minting.
    pub open spec fn minted(magnitude: u64) -> Vote {
        Vote { magnitude, direction: VoterView::Uninitialized, justification: None }
    }

    /// The record after a change of direction: same magnitude, new direction,
    /// new justification.
    pub open spec fn with_view(self, direction: VoterView, justification: Option<Cid>) -> Vote {
        Vote { magnitude: self.magnitude, direction, justification }
    }

    /// The record with a new direction and justification, or `None` if the
    /// direction is the one already held.
    pub fn set_new_view(&self, new_direction: VoterView, new_justification: Option<Cid>) -> (r:
        Option<Vote>)
        ensures
            r == if self.direction == new_direction {
                None
            } else {
                Some(self.with_view(new_direction, new_justification))
            },
    {
        if self.direction == new_direction {
            None
        } else {
            Some(
                Vote {
                    magnitude: self.magnitude,
                    direction: new_direction,
                    justification: new_justification,
                },
            )
        }
    }

    pub fn magnitude(&self) -> (r: u64)
        ensures
            r == self.magnitude,
    {
        self.magnitude
    }

    pub fn direction(&self) -> (r: VoterView)
        ensures
            r == self.direction,
    {
        self.direction
    }

    pub fn justification(&self) -> (r: Option<Cid>)
        ensures
            r == self.justification,
    {
        self.justification
    }
}

/// The aggregate state of one vote.
#[derive(Clone, Copy, Debug, PartialEq, Eq)]
pub struct VoteState {
    /// An optional reference to what is being voted on.
    pub topic: Option<Cid>,
    /// All signal minted for this vote.
    pub total_possible_turnout: u64,
    /// The signal currently cast in favor.
    pub in_favor: u64,
    /// The signal currently cast against.
    pub against: u64,
    /// The bounds, in signal, that decide the outcome.
    pub threshold: Threshold<u64>,
    /// The block at which the vote was opened.
    pub initialized: u64,
    /// The last block at which votes are accepted, if there is one.
    pub ends: Option<u64>,
}

impl VoteState {
    /// The tally and the threshold stay within the minted signal.
    pub open spec fn wf(self) -> bool {
        &&& self.in_favor + self.against <= self.total_possible_turnout
        &&& valid_signal_threshold_spec(self.threshold, self.total_possible_turnout)
    }

    /// A vote that nobody has voted in yet.
    pub open spec fn fresh(
        topic: Option<Cid>,
        total_possible_turnout: u64,
        threshold: Threshold<u64>,
        initialized: u64,
        ends: Option<u64>,
    ) -> VoteState {
        VoteState {
            topic,
            total_possible_turnout,
            in_favor: 0,
            against: 0,
            threshold,
            initialized,
            ends,
        }
    }

    /// A vote with empty tallies.
    pub fn new(
        topic: Option<Cid>,
        total_possible_turnout: u64,
        threshold: Threshold<u64>,
        initialized: u64,
        ends: Option<u64>,
    ) -> (r: VoteState)
        ensures
            r == VoteState::fresh(topic, total_possible_turnout, threshold, initialized, ends),
            r.wf() <==> valid_signal_threshold_spec(threshold, total_possible_turnout),
    {
        VoteState {
            topic,
            total_possible_turnout,
            in_favor: 0,
            against: 0,
            threshold,
            initialized,
            ends,
        }
    }

    /// The state after a member who holds `magnitude` signal moves from
    /// `old_view` to `new_view`: the magnitude leaves the tally that the old
    /// direction counted in and enters the one that the new direction counts
    /// in. There is no such state if the member would go back to not having
    /// voted, if the old tally holds less than the magnitude, or if the
    /// tallies together would exceed the minted signal.
    pub open spec fn apply_spec(
        self,
        magnitude: u64,
        old_view: VoterView,
        new_view: VoterView,
    ) -> Option<VoteState> {
        let in_favor = self.in_favor - in_favor_share(old_view, magnitude) + in_favor_share(
            new_view,
            magnitude,
        );
        let against = self.against - against_share(old_view, magnitude) + against_share(
            new_view,
            magnitude,
        );
        if new_view == VoterView::Uninitialized && old_view != VoterView::Uninitialized {
            None
        } else if self.in_favor < in_favor_share(old_view, magnitude) || self.against
            < against_share(old_view, magnitude) {
            None
        } else if in_favor + against > self.total_possible_turnout {
            None
        } else {
            Some(VoteState { in_favor: in_favor as u64, against: against as u64, ..self })
        }
    }

    /// Moves `magnitude` signal from the tally of `old_view` to the tally of
    /// `new_view`, where that gives a state that votes can produce.
    pub fn apply(&self, magnitude: u64, old_view: VoterView, new_view: VoterView) -> (r: Option<
        VoteState,
    >)
        ensures
            r == self.apply_spec(magnitude, old_view, new_view),
            self.wf() && r is Some ==> r->0.wf(),
    {
        if new_view == VoterView::Uninitialized && old_view != VoterView::Uninitialized {
            return None;
        }
        let leaves_in_favor: u64 = if old_view == VoterView::InFavor {
            magnitude
        } else {
            0
        };
        let leaves_against: u64 = if old_view == VoterView::Against {
            magnitude
        } else {
            0
        };
        if self.in_favor < leaves_in_favor || self.against < leaves_against {
            return None;
        }
        let enters_in_favor: u64 = if new_view == VoterView::InFavor {
            magnitude
        } else {
            0
        };
        let enters_against: u64 = if new_view == VoterView::Against {
            magnitude
        } else {
            0
        };
        let in_favor: u128 = (self.in_favor - leaves_in_favor) as u128 + enters_in_favor as u128;
        let against: u128 = (self.against - leaves_against) as u128 + enters_against as u128;
        if in_favor + against > self.total_possible_turnout as u128 {
            return None;
        }
        Some(
            VoteState {
                topic: self.topic,
                total_possible_turnout: self.total_possible_turnout,
                in_favor: in_favor as u64,
                against: against as u64,
                threshold: self.threshold,
                initialized: self.initialized,
                ends: self.ends,
            },
        )
    }

    /// The outcome that the tally stands for. Reaching the bound in favor
    /// decides first: a vote that has met both bounds has passed.
    pub open spec fn outcome_spec(&self) -> VoteOutcome {
        if self.in_favor >= self.threshold.in_favor {
            VoteOutcome::Passed
        } else if self.threshold.against matches Some(bound) && self.against >= bound {
            VoteOutcome::Rejected
        } else {
            VoteOutcome::Pending
        }
    }

    /// The outcome that the tally stands for.
    #[verifier::when_used_as_spec(outcome_spec)]
    pub fn outcome(&self) -> (r: VoteOutcome)
        ensures
            r == self.outcome_spec(),
    {
        if self.in_favor >= self.threshold.in_favor {
            VoteOutcome::Passed
        } else {
            match self.threshold.against {
                Some(bound) => if self.against >= bound {
                    VoteOutcome::Rejected
                } else {
                    VoteOutcome::Pending
                },
                None => VoteOutcome::Pending,
            }
        }
    }

    /// Whether `now` lies after the vote's last block. A vote without a last
    /// block never expires, and the last block itself is still open.
    pub open spec fn is_expired_spec(&self, now: u64) -> bool {
        self.ends matches Some(last) && now > last
    }

    /// Whether `now` lies after the vote's last block.
    #[verifier::when_used_as_spec(is_expired_spec)]
    pub fn is_expired(&self, now: u64) -> (r: bool)
        ensures
            r == self.is_expired_spec(now),
    {
        match self.ends {
            Some(last) => now > last,
            None => false,
        }
    }

    /// The state with its last block moved to `new_end` if that is later. A
    /// vote without a last block keeps none.
    pub open spec fn extend_to_spec(self, new_end: u64) -> VoteState {
        match self.ends {
            Some(last) if last < new_end => VoteState { ends: Some(new_end), ..self },
            _ => self,
        }
    }

    /// The state with its last block moved to `new_end` if that is later.
    pub fn extend_to(&self, new_end: u64) -> (r: VoteState)
        ensures
            r == self.extend_to_spec(new_end),
            self.wf() ==> r.wf(),
    {
        match self.ends {
            Some(last) => if last < new_end {
                VoteState {
                    topic: self.topic,
                    total_possible_turnout: self.total_possible_turnout,
                    in_favor: self.in_favor,
                    against: self.against,
                    threshold: self.threshold,
                    initialized: self.initialized,
                    ends: Some(new_end),
                }
            } else {
                *self
            },
            None => *self,
        }
    }

    /// The state with a new topic and both tallies back at zero.
    pub open spec fn with_topic_cleared(self, new_topic: Cid) -> VoteState {
        VoteState { topic: Some(new_topic), in_favor: 0, against: 0, ..self }
    }

    /// The state with a new topic and the tallies as they are.
    pub open spec fn with_topic(self, new_topic: Cid) -> VoteState {
        VoteState { topic: Some(new_topic), ..self }
    }

    /// Replaces the topic and sets both tallies to zero.
    pub fn update_topic_and_clear_state(&self, new_topic: Cid) -> (r: VoteState)
        ensures
            r == self.with_topic_cleared(new_topic),
            self.wf() ==> r.wf(),
    {
        VoteState {
            topic: Some(new_topic),
            total_possible_turnout: self.total_possible_turnout,
            in_favor: 0,
            against: 0,
            threshold: self.threshold,
            initialized: self.initialized,
            ends: self.ends,
        }
    }

    /// Replaces the topic and leaves the tallies alone.
    pub fn update_topic_without_clearing_state(&self, new_topic: Cid) -> (r: VoteState)
        ensures
            r == self.with_topic(new_topic),
            self.wf() ==> r.wf(),
    {
        VoteState {
            topic: Some(new_topic),
            total_possible_turnout: self.total_possible_turnout,
            in_favor: self.in_favor,
            against: self.against,
            threshold: self.threshold,
            initialized: self.initialized,
            ends: self.ends,
        }
    }

    pub fn topic(&self) -> (r: Option<Cid>)
        ensures
            r == self.topic,
    {
        self.topic
    }

    pub fn total_possible_turnout(&self) -> (r: u64)
        ensures
            r == self.total_possible_turnout,
    {
        self.total_possible_turnout
    }

    pub fn in_favor(&self) -> (r: u64)
        ensures
            r == self.in_favor,
    {
        self.in_favor
    }

    pub fn against(&self) -> (r: u64)
        ensures
            r == self.against,
    {
        self.against
    }

    pub fn threshold(&self) -> (r: Threshold<u64>)
        ensures
            r == self.threshold,
    {
        self.threshold
    }

    pub fn initialized(&self) -> (r: u64)
        ensures
            r == self.initialized,
    {
        self.initialized
    }

    pub fn ends(&self) -> (r: Option<u64>)
        ensures
            r == self.ends,
    {
        self.ends
    }
}

} // verus!

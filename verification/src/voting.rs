//! Voting in an open vote, and the two changes that an open vote admits
//! besides: a later last block and a new topic.

use crate::consistency::{
    lemma_extend_vote_length_wf, lemma_update_vote_topic_wf, lemma_vote_on_proposal_wf,
};
use crate::error::VoteError;
use crate::ledger::VoteLedger;
use crate::vote::{Cid, VoteState, VoterView};
use vstd::prelude::*;

verus! {

impl VoteLedger {
    /// The state after a member moves `vote_magnitude` signal from one
    /// direction to another, if the tallies admit it.
    pub fn apply_vote(
        state: VoteState,
        vote_magnitude: u64,
        old_vote_view: VoterView,
        new_vote_view: VoterView,
    ) -> (r: Option<VoteState>)
        ensures
            r == state.apply_spec(vote_magnitude, old_vote_view, new_vote_view),
            state.wf() && r is Some ==> r->0.wf(),
    {
        state.apply(vote_magnitude, old_vote_view, new_vote_view)
    }

    /// Whether `now` lies after the vote's last block.
    pub fn check_vote_expired(state: &VoteState, now: u64) -> (r: bool)
        ensures
            r == state.is_expired_spec(now),
    {
        state.is_expired(now)
    }

    /// Records a member's vote or change of vote at block `now`. The checks
    /// are made in this order, and the first that fails gives the error: the
    /// vote exists; `now` is not past its last block; signal was minted for
    /// the voter; the direction differs from the one on record; the tallies
    /// admit the change. On success the voter's record and the vote's
    /// tallies change together; on an error nothing changes.
    pub fn vote_on_proposal(
        &mut self,
        now: u64,
        vote_id: u64,
        voter: u64,
        direction: VoterView,
        justification: Option<Cid>,
    ) -> (r: Result<(), VoteError>)
        ensures
            r == old(self)@.vote_on_proposal_result(now, vote_id, voter, direction),
            final(self)@ == old(self)@.vote_on_proposal(
                now,
                vote_id,
                voter,
                direction,
                justification,
            ),
            old(self).wf() ==> final(self).wf(),
    {
        proof {
            if old(self).wf() {
                lemma_vote_on_proposal_wf(
                    old(self)@,
                    now,
                    vote_id,
                    voter,
                    direction,
                    justification,
                );
            }
        }
        let vote_state = match self.vote_states(vote_id) {
            Some(state) => state,
            None => {
                return Err(VoteError::VoteStateNotFound);
            },
        };
        if VoteLedger::check_vote_expired(&vote_state, now) {
            return Err(VoteError::VoteExpired);
        }
        let old_vote = match self.vote_logger(vote_id, voter) {
            Some(record) => record,
            None => {
                return Err(VoteError::NoSignalForVoter);
            },
        };
        let new_vote = match old_vote.set_new_view(direction, justification) {
            Some(record) => record,
            None => {
                return Err(VoteError::NoChange);
            },
        };
        let new_state = match VoteLedger::apply_vote(
            vote_state,
            old_vote.magnitude(),
            old_vote.direction(),
            direction,
        ) {
            Some(state) => state,
            None => {
                return Err(VoteError::UnsupportedTransition);
            },
        };
        self.write_record(vote_id, voter, new_vote);
        self.write_state(vote_id, new_state);
        proof {
            assert(self@ =~= old(self)@.vote_on_proposal(
                now,
                vote_id,
                voter,
                direction,
                justification,
            ));
        }
        Ok(())
    }

    /// Replaces a vote's topic and, if `clear_previous_vote_state` is set,
    /// sets both tallies back to zero. The members' records are not touched:
    /// the vote goes on around the new topic with the signal and the
    /// directions it has.
    pub fn update_vote_topic(
        &mut self,
        vote_id: u64,
        new_topic: Cid,
        clear_previous_vote_state: bool,
    ) -> (r: Result<(), VoteError>)
        ensures
            r == old(self)@.found(vote_id),
            final(self)@ == old(self)@.update_vote_topic(
                vote_id,
                new_topic,
                clear_previous_vote_state,
            ),
            old(self).wf() ==> final(self).wf(),
    {
        proof {
            if old(self).wf() {
                lemma_update_vote_topic_wf(
                    old(self)@,
                    vote_id,
                    new_topic,
                    clear_previous_vote_state,
                );
            }
        }
        let old_vote_state = match self.vote_states(vote_id) {
            Some(state) => state,
            None => {
                return Err(VoteError::VoteStateNotFound);
            },
        };
        if clear_previous_vote_state {
            let cleared_state = old_vote_state.update_topic_and_clear_state(new_topic);
            self.write_cleared_state(vote_id, old_vote_state, cleared_state);
        } else {
            self.write_state(vote_id, old_vote_state.update_topic_without_clearing_state(new_topic));
        }
        assert(self@ =~= old(self)@.update_vote_topic(
            vote_id,
            new_topic,
            clear_previous_vote_state,
        ));
        Ok(())
    }

    /// Moves a vote's last block to `blocks_from_now` blocks after `now`, if
    /// that is later than the last block it has. A vote without a last block
    /// stays without one.
    pub fn extend_vote_length(&mut self, now: u64, vote_id: u64, blocks_from_now: u64) -> (r:
        Result<(), VoteError>)
        requires
            now + blocks_from_now <= u64::MAX,
        ensures
            r == old(self)@.found(vote_id),
            final(self)@ == old(self)@.extend_vote_length(now, vote_id, blocks_from_now),
            old(self).wf() ==> final(self).wf(),
    {
        proof {
            if old(self).wf() {
                lemma_extend_vote_length_wf(old(self)@, now, vote_id, blocks_from_now);
            }
        }
        let new_end_time = now + blocks_from_now;
        let state = match self.vote_states(vote_id) {
            Some(state) => state,
            None => {
                return Err(VoteError::VoteStateNotFound);
            },
        };
        self.write_state(vote_id, state.extend_to(new_end_time));
        assert(self@ =~= old(self)@.extend_vote_length(now, vote_id, blocks_from_now));
        Ok(())
    }
}

} // verus!

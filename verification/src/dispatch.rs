//! The calls as members of an organization make them: the caller is already
//! authenticated, privileged calls carry the answer to whether the caller
//! supervises the organization, and each accepted call yields an event.

use crate::error::VoteError;
use crate::group::Snapshot;
use crate::ledger::VoteLedger;
use crate::permill::Permill;
use crate::threshold::{Threshold, ThresholdInput};
use crate::vote::{Cid, VoterView};
use vstd::prelude::*;

verus! {

/// What an accepted call reports.
#[derive(Clone, Copy, Debug, PartialEq, Eq)]
pub enum Event {
    /// A threshold was registered under this id.
    ThresholdSet(u64),
    /// This account opened the vote with this id.
    NewVoteStarted(u64, u64),
    /// In the vote with this id, this account now holds this direction.
    Voted(u64, u64, VoterView),
}

/// The event for a vote that `vote_creator` opened, or the error that kept
/// it from opening.
pub open spec fn started(vote_creator: u64, opened: Result<u64, VoteError>) -> Result<
    Event,
    VoteError,
> {
    match opened {
        Ok(vote_id) => Ok(Event::NewVoteStarted(vote_creator, vote_id)),
        Err(error) => Err(error),
    }
}

impl VoteLedger {
    /// Opens a vote with a threshold in signal on behalf of `vote_creator`,
    /// who must supervise the organization. Without that the call is
    /// rejected and nothing is written; with it, the call is `open_vote_with`.
    pub fn create_signal_vote(
        &mut self,
        now: u64,
        vote_creator: u64,
        authorized: bool,
        topic: Option<Cid>,
        snapshot: &Snapshot,
        threshold: Threshold<u64>,
        duration: Option<u64>,
    ) -> (r: Result<Event, VoteError>)
        requires
            authorized ==> old(self)@.open_vote_counter < u32::MAX,
            authorized ==> (duration matches Some(blocks) ==> now + blocks <= u64::MAX),
        ensures
            !authorized ==> r == Err::<Event, VoteError>(VoteError::NotAuthorized) && final(self)@
                == old(self)@,
            authorized ==> r == started(
                vote_creator,
                old(self)@.open_vote_result(snapshot.is_equal(), snapshot.shares(), threshold),
            ) && final(self)@ == old(self)@.open_vote(
                now,
                topic,
                snapshot.is_equal(),
                snapshot.shares(),
                threshold,
                duration,
            ),
            old(self).wf() ==> final(self).wf(),
    {
        if !authorized {
            return Err(VoteError::NotAuthorized);
        }
        match self.open_vote_with(now, topic, snapshot, threshold, duration) {
            Ok(vote_id) => Ok(Event::NewVoteStarted(vote_creator, vote_id)),
            Err(error) => Err(error),
        }
    }

    /// Opens a vote with a fractional threshold on behalf of `vote_creator`,
    /// who must supervise the organization. Without that the call is
    /// rejected and nothing is written; with it, the call is
    /// `open_percent_vote_with`.
    pub fn create_percent_vote(
        &mut self,
        now: u64,
        vote_creator: u64,
        authorized: bool,
        topic: Option<Cid>,
        snapshot: &Snapshot,
        threshold: Threshold<Permill>,
        duration: Option<u64>,
    ) -> (r: Result<Event, VoteError>)
        requires
            authorized ==> old(self)@.open_vote_counter < u32::MAX,
            authorized ==> (duration matches Some(blocks) ==> now + blocks <= u64::MAX),
        ensures
            !authorized ==> r == Err::<Event, VoteError>(VoteError::NotAuthorized) && final(self)@
                == old(self)@,
            authorized ==> r == started(
                vote_creator,
                old(self)@.open_percent_vote_result(
                    snapshot.is_equal(),
                    snapshot.shares(),
                    threshold,
                ),
            ) && final(self)@ == old(self)@.open_percent_vote(
                now,
                topic,
                snapshot.is_equal(),
                snapshot.shares(),
                threshold,
                duration,
            ),
            old(self).wf() ==> final(self).wf(),
    {
        if !authorized {
            return Err(VoteError::NotAuthorized);
        }
        match self.open_percent_vote_with(now, topic, snapshot, threshold, duration) {
            Ok(vote_id) => Ok(Event::NewVoteStarted(vote_creator, vote_id)),
            Err(error) => Err(error),
        }
    }

    /// Registers a threshold on behalf of a caller who must supervise the
    /// organization that the threshold is for.
    pub fn set_threshold_default(&mut self, authorized: bool, threshold: ThresholdInput) -> (r:
        Result<Event, VoteError>)
        ensures
            !authorized ==> r == Err::<Event, VoteError>(VoteError::NotAuthorized) && final(self)@
                == old(self)@,
            authorized ==> r == Ok::<Event, VoteError>(
                Event::ThresholdSet(old(self)@.new_threshold_id()),
            ) && final(self)@ == old(self)@.register_threshold(threshold),
            old(self).wf() ==> final(self).wf(),
    {
        if !authorized {
            return Err(VoteError::NotAuthorized);
        }
        let id = self.register_threshold(threshold);
        Ok(Event::ThresholdSet(id))
    }

    /// Records the vote of `voter`, as `vote_on_proposal` does, and reports
    /// it.
    pub fn submit_vote(
        &mut self,
        now: u64,
        voter: u64,
        vote_id: u64,
        direction: VoterView,
        justification: Option<Cid>,
    ) -> (r: Result<Event, VoteError>)
        ensures
            r == match old(self)@.vote_on_proposal_result(now, vote_id, voter, direction) {
                Ok(_) => Ok::<Event, VoteError>(Event::Voted(vote_id, voter, direction)),
                Err(error) => Err::<Event, VoteError>(error),
            },
            final(self)@ == old(self)@.vote_on_proposal(
                now,
                vote_id,
                voter,
                direction,
                justification,
            ),
            old(self).wf() ==> final(self).wf(),
    {
        match self.vote_on_proposal(now, vote_id, voter, direction, justification) {
            Ok(_) => Ok(Event::Voted(vote_id, voter, direction)),
            Err(error) => Err(error),
        }
    }
}

} // verus!

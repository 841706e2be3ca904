//! Opening a vote: minting signal for the members that the registry
//! reports, checking the threshold against it, and storing the new state.

use crate::consistency::lemma_open_vote_wf;
use crate::error::VoteError;
use crate::group::{
    equal_shares, lemma_equal_shares, members_of, stake_sum, take_snapshot, valid_shares,
    EqualGroup, Snapshot, StakeSource, WeightedGroup,
};
use crate::ledger::VoteLedger;
use crate::model::{mint_into, LedgerView};
use crate::permill::Permill;
use crate::threshold::{
    from_permill_to_signal, valid_signal_threshold, OrgRep, Threshold, XorThreshold,
};
use crate::vote::{Cid, Vote, VoteState, VoterView};
use vstd::prelude::*;

verus! {

impl VoteLedger {
    /// Mints one unit of signal for every member of the group, whatever
    /// their stake, and returns the signal minted: the number of members.
    pub(crate) fn batch_mint_equal_signal(&mut self, vote_id: u64, group: &EqualGroup) -> (total:
        u64)
        ensures
            final(self)@ == old(self)@.mint(vote_id, equal_shares(group@)),
            total == group@.len(),
            total == stake_sum(equal_shares(group@)),
    {
        let ghost shares = equal_shares(group@);
        let count = group.len();
        let mut i: usize = 0;
        while i < count
            invariant
                i <= count,
                count == group@.len(),
                shares == equal_shares(group@),
                self@ == (LedgerView {
                    vote_logger: mint_into(old(self)@.vote_logger, vote_id, shares.take(i as int)),
                    ..old(self)@
                }),
            decreases count - i,
        {
            proof {
                assert(shares.take(i + 1).drop_last() =~= shares.take(i as int));
            }
            self.write_record(
                vote_id,
                group.member(i),
                Vote::new(1, VoterView::Uninitialized, None),
            );
            i += 1;
        }
        proof {
            assert(shares.take(i as int) =~= shares);
            lemma_equal_shares(group@);
        }
        let total = count as u64;
        self.write_issuance(vote_id, total, Ghost(group@));
        total
    }

    /// Mints signal for every member of the group, equal to their stake,
    /// and returns the signal minted: the sum of the stakes.
    pub(crate) fn batch_mint_signal(&mut self, vote_id: u64, group: &WeightedGroup) -> (total: u64)
        ensures
            final(self)@ == old(self)@.mint(vote_id, group@),
            total == stake_sum(group@),
    {
        let count = group.len();
        let mut i: usize = 0;
        while i < count
            invariant
                i <= count,
                count == group@.len(),
                self@ == (LedgerView {
                    vote_logger: mint_into(old(self)@.vote_logger, vote_id, group@.take(i as int)),
                    ..old(self)@
                }),
            decreases count - i,
        {
            proof {
                assert(group@.take(i + 1).drop_last() =~= group@.take(i as int));
            }
            let share = group.share(i);
            self.write_record(
                vote_id,
                share.0,
                Vote::new(share.1, VoterView::Uninitialized, None),
            );
            i += 1;
        }
        proof {
            assert(group@.take(i as int) =~= group@);
        }
        let total = group.total();
        self.write_issuance(vote_id, total, Ghost(members_of(group@)));
        total
    }

    /// Opens a vote once the signal to mint is known to be `total`: checks
    /// the threshold against it, draws the vote's id, mints the signal and
    /// stores the new state.
    fn open_minted(
        &mut self,
        now: u64,
        topic: Option<Cid>,
        equal: bool,
        snapshot: &Snapshot,
        total: u64,
        threshold: Threshold<u64>,
        duration: Option<u64>,
    ) -> (r: Result<u64, VoteError>)
        requires
            snapshot.shares() is Some,
            total == stake_sum(snapshot.shares()->0),
            valid_shares(snapshot.shares()->0),
            old(self)@.open_vote_counter < u32::MAX,
            duration matches Some(blocks) ==> now + blocks <= u64::MAX,
        ensures
            r == old(self)@.open_vote_result(equal, snapshot.shares(), threshold),
            final(self)@ == old(self)@.open_vote(
                now,
                topic,
                equal,
                snapshot.shares(),
                threshold,
                duration,
            ),
            old(self).wf() ==> final(self).wf(),
    {
        proof {
            if old(self).wf() {
                lemma_open_vote_wf(
                    old(self)@,
                    now,
                    topic,
                    equal,
                    snapshot.shares(),
                    threshold,
                    duration,
                );
            }
        }
        if !valid_signal_threshold(&threshold, total) {
            return Err(VoteError::ThresholdExceedsBounds);
        }
        let ends = match duration {
            Some(blocks) => Some(now + blocks),
            None => None,
        };
        let vote_id = self.generate_unique_id();
        let ghost drawn = self@;
        let minted = match snapshot {
            Snapshot::Equal(Some(group)) => self.batch_mint_equal_signal(vote_id, group),
            Snapshot::Weighted(Some(group)) => self.batch_mint_signal(vote_id, group),
            _ => total,
        };
        assert(self@ == drawn.mint(vote_id, snapshot.shares()->0));
        self.write_state(vote_id, VoteState::new(topic, minted, threshold, now, ends));
        self.count_opened_vote();
        assert(old(self)@.open_vote_result(equal, snapshot.shares(), threshold) == Ok::<
            u64,
            VoteError,
        >(vote_id));
        assert(self@ =~= old(self)@.with_new_vote(
            vote_id,
            topic,
            snapshot.shares()->0,
            threshold,
            now,
            ends,
        ));
        assert(self@ =~= old(self)@.open_vote(
            now,
            topic,
            equal,
            snapshot.shares(),
            threshold,
            duration,
        ));
        Ok(vote_id)
    }

    /// Opens a vote on what the registry reported, where `equal` says which
    /// question the report answers.
    fn open_vote_for(
        &mut self,
        now: u64,
        topic: Option<Cid>,
        equal: bool,
        snapshot: &Snapshot,
        threshold: Threshold<u64>,
        duration: Option<u64>,
    ) -> (r: Result<u64, VoteError>)
        requires
            old(self)@.open_vote_counter < u32::MAX,
            duration matches Some(blocks) ==> now + blocks <= u64::MAX,
        ensures
            snapshot.shares() matches Some(shares) ==> valid_shares(shares),
            r == old(self)@.open_vote_result(equal, snapshot.shares(), threshold),
            final(self)@ == old(self)@.open_vote(
                now,
                topic,
                equal,
                snapshot.shares(),
                threshold,
                duration,
            ),
            old(self).wf() ==> final(self).wf(),
    {
        match snapshot.total() {
            Some(total) => self.open_minted(now, topic, equal, snapshot, total, threshold, duration),
            None => Err(Snapshot::unavailable(equal)),
        }
    }

    /// Opens a vote with a fractional threshold on what the registry
    /// reported, where `equal` says which question the report answers.
    fn open_percent_vote_for(
        &mut self,
        now: u64,
        topic: Option<Cid>,
        equal: bool,
        snapshot: &Snapshot,
        threshold: Threshold<Permill>,
        duration: Option<u64>,
    ) -> (r: Result<u64, VoteError>)
        requires
            old(self)@.open_vote_counter < u32::MAX,
            duration matches Some(blocks) ==> now + blocks <= u64::MAX,
        ensures
            snapshot.shares() matches Some(shares) ==> valid_shares(shares),
            r == old(self)@.open_percent_vote_result(equal, snapshot.shares(), threshold),
            final(self)@ == old(self)@.open_percent_vote(
                now,
                topic,
                equal,
                snapshot.shares(),
                threshold,
                duration,
            ),
            old(self).wf() ==> final(self).wf(),
    {
        match snapshot.total() {
            Some(total) => {
                let signal_threshold = from_permill_to_signal(&threshold, total);
                self.open_minted(now, topic, equal, snapshot, total, signal_threshold, duration)
            },
            None => Err(Snapshot::unavailable(equal)),
        }
    }

    /// Opens a vote with a threshold in signal, given what the registry
    /// reported about the organization. On success, signal is minted for
    /// every member of the reported group, the vote starts with empty
    /// tallies at block `now`, and its id is returned. The call is rejected,
    /// and nothing is written, if the registry does not know the group or if
    /// a bound of the threshold exceeds the signal to mint.
    pub fn open_vote_with(
        &mut self,
        now: u64,
        topic: Option<Cid>,
        snapshot: &Snapshot,
        threshold: Threshold<u64>,
        duration: Option<u64>,
    ) -> (r: Result<u64, VoteError>)
        requires
            old(self)@.open_vote_counter < u32::MAX,
            duration matches Some(blocks) ==> now + blocks <= u64::MAX,
        ensures
            r == old(self)@.open_vote_result(snapshot.is_equal(), snapshot.shares(), threshold),
            final(self)@ == old(self)@.open_vote(
                now,
                topic,
                snapshot.is_equal(),
                snapshot.shares(),
                threshold,
                duration,
            ),
            old(self).wf() ==> final(self).wf(),
    {
        let equal = match snapshot {
            Snapshot::Equal(_) => true,
            Snapshot::Weighted(_) => false,
        };
        self.open_vote_for(now, topic, equal, snapshot, threshold, duration)
    }

    /// Opens a vote with a fractional threshold, given what the registry
    /// reported about the organization. Each bound is first resolved to that
    /// fraction of the signal to mint, rounded up; the rest is as for a
    /// threshold in signal.
    pub fn open_percent_vote_with(
        &mut self,
        now: u64,
        topic: Option<Cid>,
        snapshot: &Snapshot,
        threshold: Threshold<Permill>,
        duration: Option<u64>,
    ) -> (r: Result<u64, VoteError>)
        requires
            old(self)@.open_vote_counter < u32::MAX,
            duration matches Some(blocks) ==> now + blocks <= u64::MAX,
        ensures
            r == old(self)@.open_percent_vote_result(
                snapshot.is_equal(),
                snapshot.shares(),
                threshold,
            ),
            final(self)@ == old(self)@.open_percent_vote(
                now,
                topic,
                snapshot.is_equal(),
                snapshot.shares(),
                threshold,
                duration,
            ),
            old(self).wf() ==> final(self).wf(),
    {
        let equal = match snapshot {
            Snapshot::Equal(_) => true,
            Snapshot::Weighted(_) => false,
        };
        self.open_percent_vote_for(now, topic, equal, snapshot, threshold, duration)
    }

    /// Opens a vote by a registered threshold, given what the registry
    /// reported about the organization that the threshold was registered
    /// for. The call is rejected if no threshold is registered under the id;
    /// otherwise it goes on as for the stored threshold, in signal or
    /// fractional.
    pub fn invoke_threshold_with(
        &mut self,
        now: u64,
        threshold_id: u64,
        topic: Option<Cid>,
        snapshot: &Snapshot,
        duration: Option<u64>,
    ) -> (r: Result<u64, VoteError>)
        requires
            old(self)@.open_vote_counter < u32::MAX,
            duration matches Some(blocks) ==> now + blocks <= u64::MAX,
        ensures
            r == old(self)@.invoke_threshold_result(threshold_id, snapshot.shares()),
            final(self)@ == old(self)@.invoke_threshold(
                now,
                threshold_id,
                topic,
                snapshot.shares(),
                duration,
            ),
            old(self).wf() ==> final(self).wf(),
    {
        let config = match self.vote_thresholds(threshold_id) {
            Some(config) => config,
            None => {
                return Err(VoteError::ThresholdNotFound);
            },
        };
        let equal = match config.org() {
            OrgRep::Equal(_) => true,
            OrgRep::Weighted(_) => false,
        };
        match config.threshold() {
            XorThreshold::Signal(threshold) => self.open_vote_for(
                now,
                topic,
                equal,
                snapshot,
                threshold,
                duration,
            ),
            XorThreshold::Percent(threshold) => self.open_percent_vote_for(
                now,
                topic,
                equal,
                snapshot,
                threshold,
                duration,
            ),
        }
    }

    /// Opens a vote with a threshold in signal for an organization, asking
    /// the registry for its members. What the registry answers decides the
    /// result: the ledger ends as `open_vote_with` leaves it on some report
    /// of the kind that the organization's minting mode asks for.
    pub fn open_vote<S: StakeSource>(
        &mut self,
        source: &S,
        now: u64,
        topic: Option<Cid>,
        organization: OrgRep,
        threshold: Threshold<u64>,
        duration: Option<u64>,
    ) -> (r: Result<u64, VoteError>)
        requires
            old(self)@.open_vote_counter < u32::MAX,
            duration matches Some(blocks) ==> now + blocks <= u64::MAX,
        ensures
            exists|shares: Option<Seq<(u64, u64)>>|
                {
                    &&& shares matches Some(s) ==> valid_shares(s)
                    &&& r == old(self)@.open_vote_result(organization is Equal, shares, threshold)
                    &&& final(self)@ == #[trigger] old(self)@.open_vote(
                        now,
                        topic,
                        organization is Equal,
                        shares,
                        threshold,
                        duration,
                    )
                },
            r is Err ==> final(self)@ == old(self)@,
            old(self).wf() ==> final(self).wf(),
    {
        let snapshot = take_snapshot(source, organization);
        self.open_vote_with(now, topic, &snapshot, threshold, duration)
    }

    /// Opens a vote with a fractional threshold for an organization, asking
    /// the registry for its members. The ledger ends as
    /// `open_percent_vote_with` leaves it on some report of the kind that
    /// the organization's minting mode asks for.
    pub fn open_percent_vote<S: StakeSource>(
        &mut self,
        source: &S,
        now: u64,
        topic: Option<Cid>,
        organization: OrgRep,
        threshold: Threshold<Permill>,
        duration: Option<u64>,
    ) -> (r: Result<u64, VoteError>)
        requires
            old(self)@.open_vote_counter < u32::MAX,
            duration matches Some(blocks) ==> now + blocks <= u64::MAX,
        ensures
            exists|shares: Option<Seq<(u64, u64)>>|
                {
                    &&& shares matches Some(s) ==> valid_shares(s)
                    &&& r == old(self)@.open_percent_vote_result(
                        organization is Equal,
                        shares,
                        threshold,
                    )
                    &&& final(self)@ == #[trigger] old(self)@.open_percent_vote(
                        now,
                        topic,
                        organization is Equal,
                        shares,
                        threshold,
                        duration,
                    )
                },
            r is Err ==> final(self)@ == old(self)@,
            old(self).wf() ==> final(self).wf(),
    {
        let snapshot = take_snapshot(source, organization);
        self.open_percent_vote_for(
            now,
            topic,
            organization.is_equal(),
            &snapshot,
            threshold,
            duration,
        )
    }

    /// Opens a vote by a registered threshold, asking the registry for the
    /// members of the organization that the threshold was registered for.
    /// The call is rejected if no threshold is registered under the id;
    /// otherwise the ledger ends as `invoke_threshold_with` leaves it on
    /// some report.
    pub fn invoke_threshold<S: StakeSource>(
        &mut self,
        source: &S,
        now: u64,
        threshold_id: u64,
        topic: Option<Cid>,
        duration: Option<u64>,
    ) -> (r: Result<u64, VoteError>)
        requires
            old(self)@.open_vote_counter < u32::MAX,
            duration matches Some(blocks) ==> now + blocks <= u64::MAX,
        ensures
            !old(self)@.vote_thresholds.contains_key(threshold_id) ==> r == Err::<u64, VoteError>(
                VoteError::ThresholdNotFound,
            ),
            exists|shares: Option<Seq<(u64, u64)>>|
                {
                    &&& shares matches Some(s) ==> valid_shares(s)
                    &&& r == old(self)@.invoke_threshold_result(threshold_id, shares)
                    &&& final(self)@ == #[trigger] old(self)@.invoke_threshold(
                        now,
                        threshold_id,
                        topic,
                        shares,
                        duration,
                    )
                },
            r is Err ==> final(self)@ == old(self)@,
            old(self).wf() ==> final(self).wf(),
    {
        let config = match self.vote_thresholds(threshold_id) {
            Some(config) => config,
            None => {
                proof {
                    let none: Option<Seq<(u64, u64)>> = None;
                    assert(self@ == old(self)@.invoke_threshold(
                        now,
                        threshold_id,
                        topic,
                        none,
                        duration,
                    ));
                }
                return Err(VoteError::ThresholdNotFound);
            },
        };
        let snapshot = take_snapshot(source, config.org());
        let r = self.invoke_threshold_with(now, threshold_id, topic, &snapshot, duration);
        proof {
            assert(self@ == old(self)@.invoke_threshold(
                now,
                threshold_id,
                topic,
                snapshot.shares(),
                duration,
            ));
        }
        r
    }
}

} // verus!

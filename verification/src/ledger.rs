//! The vote ledger: what is stored, how it is read, and the single writes
//! that the calls are made of.

use crate::error::VoteError;
use crate::model::{ClearedSignal, LedgerView};
use crate::threshold::ThresholdConfig;
use crate::unique_id::generate_unique_id;
use crate::vote::{Vote, VoteOutcome, VoteState};
use std::collections::HashMap;
use vstd::prelude::*;

verus! {

/// The key under which a member's record in a vote is stored: the vote id in
/// the upper half and the member in the lower half of one number.
spec fn record_key_spec(vote_id: u64, voter: u64) -> u128 {
    (vote_id * 0x1_0000_0000_0000_0000 + voter) as u128
}

/// The key under which a member's record in a vote is stored.
fn record_key(vote_id: u64, voter: u64) -> (key: u128)
    ensures
        key == record_key_spec(vote_id, voter),
{
    (vote_id as u128) * 0x1_0000_0000_0000_0000u128 + (voter as u128)
}

/// The stored records, by vote id and member.
spec fn records(stored: Map<u128, Vote>) -> Map<(u64, u64), Vote> {
    Map::new(
        |key: (u64, u64)| stored.contains_key(record_key_spec(key.0, key.1)),
        |key: (u64, u64)| stored[record_key_spec(key.0, key.1)],
    )
}

proof fn lemma_records_insert(stored: Map<u128, Vote>, vote_id: u64, voter: u64, record: Vote)
    ensures
        records(stored.insert(record_key_spec(vote_id, voter), record)) == records(stored).insert(
            (vote_id, voter),
            record,
        ),
{
    let after = records(stored.insert(record_key_spec(vote_id, voter), record));
    let expected = records(stored).insert((vote_id, voter), record);
    assert forall|key: (u64, u64)|
        record_key_spec(key.0, key.1) == record_key_spec(vote_id, voter) implies key == (
        vote_id,
        voter,
    ) by {}
    assert(after =~= expected);
}

/// All votes of all organizations: the aggregate state of each vote, each
/// member's record in each vote, the registered thresholds, and the counters
/// that ids are drawn from.
pub struct VoteLedger {
    vote_id_counter: u64,
    threshold_id_counter: u64,
    open_vote_counter: u32,
    vote_states: HashMap<u64, VoteState>,
    vote_thresholds: HashMap<u64, ThresholdConfig>,
    total_signal_issuance: HashMap<u64, u64>,
    vote_logger: HashMap<u128, Vote>,
    rosters: Ghost<Map<u64, Seq<u64>>>,
    cleared: Ghost<Map<u64, ClearedSignal>>,
}

impl View for VoteLedger {
    type V = LedgerView;

    closed spec fn view(&self) -> LedgerView {
        LedgerView {
            vote_id_counter: self.vote_id_counter,
            threshold_id_counter: self.threshold_id_counter,
            open_vote_counter: self.open_vote_counter,
            vote_states: self.vote_states@,
            vote_thresholds: self.vote_thresholds@,
            total_signal_issuance: self.total_signal_issuance@,
            vote_logger: records(self.vote_logger@),
            rosters: self.rosters@,
            cleared: self.cleared@,
        }
    }
}

impl VoteLedger {
    /// The ledger is consistent, as every ledger is that calls have made of
    /// the empty one.
    pub open spec fn wf(&self) -> bool {
        self@.wf()
    }

    /// A ledger without votes or thresholds, with all counters at zero.
    pub fn new() -> (ledger: VoteLedger)
        ensures
            ledger@ == LedgerView::empty(),
            ledger.wf(),
    {
        let ledger = VoteLedger {
            vote_id_counter: 0,
            threshold_id_counter: 0,
            open_vote_counter: 0,
            vote_states: HashMap::new(),
            vote_thresholds: HashMap::new(),
            total_signal_issuance: HashMap::new(),
            vote_logger: HashMap::new(),
            rosters: Ghost(Map::empty()),
            cleared: Ghost(Map::empty()),
        };
        assert(ledger@ =~= LedgerView::empty());
        ledger
    }

    /// The id given to the vote that was opened last.
    pub fn vote_id_counter(&self) -> (r: u64)
        ensures
            r == self@.vote_id_counter,
    {
        self.vote_id_counter
    }

    /// The id given to the threshold that was registered last.
    pub fn threshold_id_counter(&self) -> (r: u64)
        ensures
            r == self@.threshold_id_counter,
    {
        self.threshold_id_counter
    }

    /// The number of votes opened so far.
    pub fn open_vote_counter(&self) -> (r: u32)
        ensures
            r == self@.open_vote_counter,
    {
        self.open_vote_counter
    }

    /// The aggregate state of a vote.
    pub fn vote_states(&self, vote_id: u64) -> (r: Option<VoteState>)
        ensures
            r == if self@.vote_states.contains_key(vote_id) {
                Some(self@.vote_states[vote_id])
            } else {
                None
            },
    {
        broadcast use vstd::std_specs::hash::group_hash_axioms;

        match self.vote_states.get(&vote_id) {
            Some(state) => Some(*state),
            None => None,
        }
    }

    /// A registered threshold.
    pub fn vote_thresholds(&self, threshold_id: u64) -> (r: Option<ThresholdConfig>)
        ensures
            r == if self@.vote_thresholds.contains_key(threshold_id) {
                Some(self@.vote_thresholds[threshold_id])
            } else {
                None
            },
    {
        broadcast use vstd::std_specs::hash::group_hash_axioms;

        match self.vote_thresholds.get(&threshold_id) {
            Some(config) => Some(*config),
            None => None,
        }
    }

    /// The signal that was minted for a vote.
    pub fn total_signal_issuance(&self, vote_id: u64) -> (r: Option<u64>)
        ensures
            r == if self@.total_signal_issuance.contains_key(vote_id) {
                Some(self@.total_signal_issuance[vote_id])
            } else {
                None
            },
    {
        broadcast use vstd::std_specs::hash::group_hash_axioms;

        match self.total_signal_issuance.get(&vote_id) {
            Some(total) => Some(*total),
            None => None,
        }
    }

    /// A member's record in a vote.
    pub fn vote_logger(&self, vote_id: u64, voter: u64) -> (r: Option<Vote>)
        ensures
            r == if self@.vote_logger.contains_key((vote_id, voter)) {
                Some(self@.vote_logger[(vote_id, voter)])
            } else {
                None
            },
    {
        broadcast use vstd::std_specs::hash::group_hash_axioms;

        let key = record_key(vote_id, voter);
        match self.vote_logger.get(&key) {
            Some(record) => Some(*record),
            None => None,
        }
    }

    /// Whether no vote is stored under `id`.
    pub fn id_is_available(&self, id: u64) -> (r: bool)
        ensures
            r == !self@.vote_states.contains_key(id),
    {
        broadcast use vstd::std_specs::hash::group_hash_axioms;

        !self.vote_states.contains_key(&id)
    }

    /// The outcome of a vote, read from its tallies and threshold.
    pub fn get_vote_outcome(&self, vote_id: u64) -> (r: Result<VoteOutcome, VoteError>)
        ensures
            r == self@.get_vote_outcome(vote_id),
    {
        broadcast use vstd::std_specs::hash::group_hash_axioms;

        match self.vote_states.get(&vote_id) {
            Some(state) => Ok(state.outcome()),
            None => Err(VoteError::VoteStateNotFound),
        }
    }

    /// Whether `now` lies after the last block of the vote stored under
    /// `vote_id`.
    pub fn is_expired(&self, now: u64, vote_id: u64) -> (r: Result<bool, VoteError>)
        ensures
            r == self@.is_expired(now, vote_id),
    {
        match self.vote_states(vote_id) {
            Some(state) => Ok(state.is_expired(now)),
            None => Err(VoteError::VoteStateNotFound),
        }
    }

    /// Draws the id for a new vote: the first id after the counter under
    /// which no vote is stored. The counter moves to that id.
    pub fn generate_unique_id(&mut self) -> (id: u64)
        ensures
            id == old(self)@.new_vote_id(),
            !old(self)@.vote_states.contains_key(id),
            final(self)@ == (LedgerView { vote_id_counter: id, ..old(self)@ }),
            old(self).wf() ==> final(self).wf(),
    {
        let id = generate_unique_id(self.vote_id_counter, &self.vote_states);
        self.vote_id_counter = id;
        proof {
            let pre = old(self)@;
            let post = self@;
            assert(post =~= (LedgerView { vote_id_counter: id, ..pre }));
            if pre.wf() {
                assert forall|vote_id: u64| #[trigger]
                    post.vote_states.contains_key(vote_id) implies post.vote_consistent(
                    vote_id,
                ) by {
                    assert(pre.vote_consistent(vote_id));
                }
            }
        }
        id
    }

    /// Draws the id for a new threshold: the first id after the counter
    /// under which no threshold is registered. The counter moves to that id.
    pub(crate) fn generate_threshold_uid(&mut self) -> (id: u64)
        ensures
            id == old(self)@.new_threshold_id(),
            !old(self)@.vote_thresholds.contains_key(id),
            final(self)@ == (LedgerView { threshold_id_counter: id, ..old(self)@ }),
    {
        let id = generate_unique_id(self.threshold_id_counter, &self.vote_thresholds);
        self.threshold_id_counter = id;
        assert(self@ =~= (LedgerView { threshold_id_counter: id, ..old(self)@ }));
        id
    }

    /// Stores a member's record in a vote, in place of the one that is
    /// there, if any.
    pub(crate) fn write_record(&mut self, vote_id: u64, voter: u64, record: Vote)
        ensures
            final(self)@ == (LedgerView {
                vote_logger: old(self)@.vote_logger.insert((vote_id, voter), record),
                ..old(self)@
            }),
    {
        broadcast use vstd::std_specs::hash::group_hash_axioms;

        self.vote_logger.insert(record_key(vote_id, voter), record);
        proof {
            lemma_records_insert(old(self).vote_logger@, vote_id, voter, record);
            assert(self@ =~= (LedgerView {
                vote_logger: old(self)@.vote_logger.insert((vote_id, voter), record),
                ..old(self)@
            }));
        }
    }

    /// Stores a vote's issuance, and notes its roster and that nothing has
    /// been cleared from its tallies.
    pub(crate) fn write_issuance(
        &mut self,
        vote_id: u64,
        total: u64,
        Ghost(roster): Ghost<Seq<u64>>,
    )
        ensures
            final(self)@ == (LedgerView {
                total_signal_issuance: old(self)@.total_signal_issuance.insert(vote_id, total),
                rosters: old(self)@.rosters.insert(vote_id, roster),
                cleared: old(self)@.cleared.insert(vote_id, ClearedSignal::none()),
                ..old(self)@
            }),
    {
        broadcast use vstd::std_specs::hash::group_hash_axioms;

        self.total_signal_issuance.insert(vote_id, total);
        self.rosters = Ghost(self.rosters@.insert(vote_id, roster));
        self.cleared = Ghost(self.cleared@.insert(vote_id, ClearedSignal::none()));
        assert(self@ =~= (LedgerView {
            total_signal_issuance: old(self)@.total_signal_issuance.insert(vote_id, total),
            rosters: old(self)@.rosters.insert(vote_id, roster),
            cleared: old(self)@.cleared.insert(vote_id, ClearedSignal::none()),
            ..old(self)@
        }));
    }

    /// Stores a vote's aggregate state, in place of the one that is there,
    /// if any.
    pub(crate) fn write_state(&mut self, vote_id: u64, state: VoteState)
        ensures
            final(self)@ == (LedgerView {
                vote_states: old(self)@.vote_states.insert(vote_id, state),
                ..old(self)@
            }),
    {
        broadcast use vstd::std_specs::hash::group_hash_axioms;

        self.vote_states.insert(vote_id, state);
        assert(self@ =~= (LedgerView {
            vote_states: old(self)@.vote_states.insert(vote_id, state),
            ..old(self)@
        }));
    }

    /// Counts one more opened vote.
    pub(crate) fn count_opened_vote(&mut self)
        requires
            old(self)@.open_vote_counter < u32::MAX,
        ensures
            final(self)@ == (LedgerView {
                open_vote_counter: (old(self)@.open_vote_counter + 1) as u32,
                ..old(self)@
            }),
    {
        self.open_vote_counter = self.open_vote_counter + 1;
        assert(self@ =~= (LedgerView {
            open_vote_counter: (old(self)@.open_vote_counter + 1) as u32,
            ..old(self)@
        }));
    }

    /// Stores a vote's state with both tallies set back to zero, and notes
    /// the signal that this takes out of them.
    pub(crate) fn write_cleared_state(&mut self, vote_id: u64, before: VoteState, after: VoteState)
        ensures
            final(self)@ == (LedgerView {
                vote_states: old(self)@.vote_states.insert(vote_id, after),
                cleared: old(self)@.cleared.insert(
                    vote_id,
                    old(self)@.cleared[vote_id].and_tallies_of(before),
                ),
                ..old(self)@
            }),
    {
        broadcast use vstd::std_specs::hash::group_hash_axioms;

        self.vote_states.insert(vote_id, after);
        self.cleared = Ghost(
            self.cleared@.insert(vote_id, self.cleared@[vote_id].and_tallies_of(before)),
        );
        assert(self@ =~= (LedgerView {
            vote_states: old(self)@.vote_states.insert(vote_id, after),
            cleared: old(self)@.cleared.insert(
                vote_id,
                old(self)@.cleared[vote_id].and_tallies_of(before),
            ),
            ..old(self)@
        }));
    }

    /// Stores a threshold under its id.
    pub(crate) fn write_threshold(&mut self, config: ThresholdConfig)
        ensures
            final(self)@ == (LedgerView {
                vote_thresholds: old(self)@.vote_thresholds.insert(config.id, config),
                ..old(self)@
            }),
    {
        broadcast use vstd::std_specs::hash::group_hash_axioms;

        self.vote_thresholds.insert(config.id, config);
        assert(self@ =~= (LedgerView {
            vote_thresholds: old(self)@.vote_thresholds.insert(config.id, config),
            ..old(self)@
        }));
    }
}

} // verus!

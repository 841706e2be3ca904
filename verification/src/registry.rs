//! The registry of thresholds: configurations stored under ids of their
//! own, so that a vote can be opened by reference.

use crate::consistency::lemma_register_threshold_wf;
use crate::ledger::VoteLedger;
use crate::threshold::{ThresholdConfig, ThresholdInput};
use vstd::prelude::*;

verus! {

impl VoteLedger {
    /// Stores a threshold under a new id and returns the id. Stored
    /// thresholds are never changed: to replace one, register another.
    pub fn register_threshold(&mut self, input: ThresholdInput) -> (id: u64)
        ensures
            id == old(self)@.new_threshold_id(),
            !old(self)@.vote_thresholds.contains_key(id),
            final(self)@ == old(self)@.register_threshold(input),
            old(self).wf() ==> final(self).wf(),
    {
        let id = self.generate_threshold_uid();
        self.write_threshold(ThresholdConfig::new(id, input.org(), input.threshold()));
        proof {
            assert(self@ =~= old(self)@.register_threshold(input));
            if old(self).wf() {
                lemma_register_threshold_wf(old(self)@, input);
            }
        }
        id
    }
}

} // verus!

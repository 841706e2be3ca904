//! Every transition takes a consistent ledger to a consistent ledger.

use crate::group::{members_of, stake_sum, valid_shares};
use crate::minting::{
    lemma_mint_into_keys, lemma_mint_keeps_others, lemma_minted_roster, lemma_minted_sums,
};
use crate::model::{ballots, ends_after, LedgerView};
use crate::permill::Permill;
use crate::tally::lemma_sum_update;
use crate::threshold::{valid_signal_threshold_spec, Threshold, ThresholdInput};
use crate::unique_id::lemma_next_unused;
use crate::vote::{Cid, Vote, VoteState, VoterView};
use vstd::prelude::*;

verus! {

/// Registering a threshold keeps the ledger consistent.
pub proof fn lemma_register_threshold_wf(pre: LedgerView, input: ThresholdInput)
    requires
        pre.wf(),
    ensures
        pre.register_threshold(input).wf(),
{
    let post = pre.register_threshold(input);
    assert forall|vote_id: u64| #[trigger] post.vote_states.contains_key(vote_id) implies post.vote_consistent(
    vote_id) by {
        assert(pre.vote_consistent(vote_id));
    }
}

/// In a consistent ledger the next vote id is not in use.
pub proof fn lemma_new_vote_id_unused(pre: LedgerView)
    requires
        pre.wf(),
    ensures
        !pre.vote_states.contains_key(pre.new_vote_id()),
{
    lemma_next_unused(pre.vote_id_counter, pre.vote_states.dom());
}

/// A new vote under an unused id, with signal minted for distinct members
/// and a threshold within that signal, keeps the ledger consistent.
pub proof fn lemma_with_new_vote_wf(
    pre: LedgerView,
    vote_id: u64,
    topic: Option<Cid>,
    shares: Seq<(u64, u64)>,
    threshold: Threshold<u64>,
    now: u64,
    ends: Option<u64>,
)
    requires
        pre.wf(),
        valid_shares(shares),
        !pre.vote_states.contains_key(vote_id),
        valid_signal_threshold_spec(threshold, stake_sum(shares) as u64),
        pre.open_vote_counter < u32::MAX,
    ensures
        pre.with_new_vote(vote_id, topic, shares, threshold, now, ends).wf(),
{
    let post = pre.with_new_vote(vote_id, topic, shares, threshold, now, ends);
    assert(post.vote_states.dom() =~= pre.vote_states.dom().insert(vote_id));
    assert(post.total_signal_issuance.dom() =~= post.vote_states.dom());
    assert(post.rosters.dom() =~= post.vote_states.dom());
    assert(post.cleared.dom() =~= post.vote_states.dom());
    assert forall|key: (u64, u64)| #[trigger]
        post.vote_logger.contains_key(key) implies post.vote_states.contains_key(key.0) by {
        lemma_mint_into_keys(pre.vote_logger, vote_id, shares, key);
    }
    assert forall|other: u64| #[trigger] post.vote_states.contains_key(other) implies post.vote_consistent(
    other) by {
        if other == vote_id {
            lemma_minted_roster(pre.vote_logger, vote_id, shares);
            lemma_minted_sums(shares);
            assert forall|member: u64|
                post.vote_logger.contains_key((vote_id, member)) <==> members_of(shares).contains(
                    member,
                ) by {
                lemma_mint_into_keys(pre.vote_logger, vote_id, shares, (vote_id, member));
                assert(!pre.vote_logger.contains_key((vote_id, member)));
            }
        } else {
            assert(pre.vote_consistent(other));
            lemma_mint_keeps_others(pre.vote_logger, vote_id, shares, other, pre.rosters[other]);
            assert forall|member: u64|
                post.vote_logger.contains_key((other, member)) <==> pre.rosters[other].contains(
                    member,
                ) by {
                lemma_mint_into_keys(pre.vote_logger, vote_id, shares, (other, member));
            }
        }
    }
}

/// Opening a vote keeps the ledger consistent, whether the call is accepted
/// or not.
pub proof fn lemma_open_vote_wf(
    pre: LedgerView,
    now: u64,
    topic: Option<Cid>,
    equal: bool,
    shares: Option<Seq<(u64, u64)>>,
    threshold: Threshold<u64>,
    duration: Option<u64>,
)
    requires
        pre.wf(),
        shares matches Some(s) ==> valid_shares(s),
        pre.open_vote_counter < u32::MAX,
    ensures
        pre.open_vote(now, topic, equal, shares, threshold, duration).wf(),
{
    if pre.open_vote_result(equal, shares, threshold) is Ok {
        lemma_new_vote_id_unused(pre);
        lemma_with_new_vote_wf(
            pre,
            pre.new_vote_id(),
            topic,
            shares->0,
            threshold,
            now,
            ends_after(now, duration),
        );
    }
}

/// Opening a vote with a fractional threshold keeps the ledger consistent.
pub proof fn lemma_open_percent_vote_wf(
    pre: LedgerView,
    now: u64,
    topic: Option<Cid>,
    equal: bool,
    shares: Option<Seq<(u64, u64)>>,
    threshold: Threshold<Permill>,
    duration: Option<u64>,
)
    requires
        pre.wf(),
        shares matches Some(s) ==> valid_shares(s),
        pre.open_vote_counter < u32::MAX,
    ensures
        pre.open_percent_vote(now, topic, equal, shares, threshold, duration).wf(),
{
    lemma_open_vote_wf(
        pre,
        now,
        topic,
        equal,
        shares,
        LedgerView::resolve(shares, threshold),
        duration,
    );
}

/// Opening a vote by a registered threshold keeps the ledger consistent.
pub proof fn lemma_invoke_threshold_wf(
    pre: LedgerView,
    now: u64,
    threshold_id: u64,
    topic: Option<Cid>,
    shares: Option<Seq<(u64, u64)>>,
    duration: Option<u64>,
)
    requires
        pre.wf(),
        shares matches Some(s) ==> valid_shares(s),
        pre.open_vote_counter < u32::MAX,
    ensures
        pre.invoke_threshold(now, threshold_id, topic, shares, duration).wf(),
{
    if pre.vote_thresholds.contains_key(threshold_id) {
        let config = pre.vote_thresholds[threshold_id];
        match config.threshold {
            crate::threshold::XorThreshold::Signal(threshold) => {
                lemma_open_vote_wf(pre, now, topic, config.org is Equal, shares, threshold, duration);
            },
            crate::threshold::XorThreshold::Percent(threshold) => {
                lemma_open_percent_vote_wf(
                    pre,
                    now,
                    topic,
                    config.org is Equal,
                    shares,
                    threshold,
                    duration,
                );
            },
        }
    }
}

/// A state that comes out of a change of direction keeps its tallies and
/// threshold within the minted signal.
pub proof fn lemma_apply_wf(
    state: VoteState,
    magnitude: u64,
    old_view: VoterView,
    new_view: VoterView,
)
    requires
        state.wf(),
        state.apply_spec(magnitude, old_view, new_view) is Some,
    ensures
        state.apply_spec(magnitude, old_view, new_view)->0.wf(),
{
}

/// Writing one member's record changes that member's ballot and no other.
pub proof fn lemma_ballots_after_write(
    logger: Map<(u64, u64), Vote>,
    vote_id: u64,
    roster: Seq<u64>,
    index: int,
    record: Vote,
)
    requires
        roster.no_duplicates(),
        0 <= index < roster.len(),
    ensures
        ballots(logger.insert((vote_id, roster[index]), record), vote_id, roster) == ballots(
            logger,
            vote_id,
            roster,
        ).update(index, record),
{
    let after = ballots(logger.insert((vote_id, roster[index]), record), vote_id, roster);
    let expected = ballots(logger, vote_id, roster).update(index, record);
    assert forall|i: int| 0 <= i < roster.len() implies after[i] == expected[i] by {
        if i != index {
            assert(roster[i] != roster[index]);
        }
    }
    assert(after =~= expected);
}

/// Writing a record of one vote leaves the ballots of every other vote as
/// they were.
pub proof fn lemma_ballots_of_others(
    logger: Map<(u64, u64), Vote>,
    vote_id: u64,
    voter: u64,
    record: Vote,
    other: u64,
    roster: Seq<u64>,
)
    requires
        other != vote_id,
    ensures
        ballots(logger.insert((vote_id, voter), record), other, roster) == ballots(
            logger,
            other,
            roster,
        ),
{
    assert(ballots(logger.insert((vote_id, voter), record), other, roster) =~= ballots(
        logger,
        other,
        roster,
    ));
}

/// Submitting a vote keeps the ledger consistent, whether the call is
/// accepted or not.
pub proof fn lemma_vote_on_proposal_wf(
    pre: LedgerView,
    now: u64,
    vote_id: u64,
    voter: u64,
    direction: VoterView,
    justification: Option<Cid>,
)
    requires
        pre.wf(),
    ensures
        pre.vote_on_proposal(now, vote_id, voter, direction, justification).wf(),
{
    let post = pre.vote_on_proposal(now, vote_id, voter, direction, justification);
    if pre.vote_on_proposal_result(now, vote_id, voter, direction) is Ok {
        let record = pre.vote_logger[(vote_id, voter)];
        let written = record.with_view(direction, justification);
        let state = pre.vote_states[vote_id];
        let roster = pre.rosters[vote_id];
        assert(pre.vote_consistent(vote_id));
        assert(roster.contains(voter));
        let index = choose|i: int| 0 <= i < roster.len() && roster[i] == voter;
        assert(post.vote_states.dom() =~= pre.vote_states.dom());
        assert(post.vote_logger.dom() =~= pre.vote_logger.dom());
        assert forall|other: u64| #[trigger] post.vote_states.contains_key(other) implies post.vote_consistent(
        other) by {
            assert(pre.vote_consistent(other));
            if other == vote_id {
                let cast = pre.ballots_of(vote_id);
                lemma_apply_wf(state, record.magnitude, record.direction, direction);
                lemma_ballots_after_write(pre.vote_logger, vote_id, roster, index, written);
                assert(cast[index] == record);
                lemma_sum_update(cast, index, written, None);
                lemma_sum_update(cast, index, written, Some(VoterView::InFavor));
                lemma_sum_update(cast, index, written, Some(VoterView::Against));
            } else {
                lemma_ballots_of_others(
                    pre.vote_logger,
                    vote_id,
                    voter,
                    written,
                    other,
                    pre.rosters[other],
                );
            }
        }
    }
}

/// Extending a vote keeps the ledger consistent.
pub proof fn lemma_extend_vote_length_wf(
    pre: LedgerView,
    now: u64,
    vote_id: u64,
    blocks_from_now: u64,
)
    requires
        pre.wf(),
    ensures
        pre.extend_vote_length(now, vote_id, blocks_from_now).wf(),
{
    let post = pre.extend_vote_length(now, vote_id, blocks_from_now);
    if pre.vote_states.contains_key(vote_id) {
        assert(post.vote_states.dom() =~= pre.vote_states.dom());
        assert forall|other: u64| #[trigger] post.vote_states.contains_key(other) implies post.vote_consistent(
        other) by {
            assert(pre.vote_consistent(other));
        }
    }
}

/// Replacing a vote's topic keeps the ledger consistent, with or without
/// clearing the tallies.
pub proof fn lemma_update_vote_topic_wf(
    pre: LedgerView,
    vote_id: u64,
    new_topic: Cid,
    clear: bool,
)
    requires
        pre.wf(),
    ensures
        pre.update_vote_topic(vote_id, new_topic, clear).wf(),
{
    let post = pre.update_vote_topic(vote_id, new_topic, clear);
    if pre.vote_states.contains_key(vote_id) {
        assert(post.vote_states.dom() =~= pre.vote_states.dom());
        assert(post.cleared.dom() =~= pre.cleared.dom());
        assert forall|other: u64| #[trigger] post.vote_states.contains_key(other) implies post.vote_consistent(
        other) by {
            assert(pre.vote_consistent(other));
        }
    }
}

} // verus!

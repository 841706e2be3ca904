//! What holds of the ledger whatever calls are made on it.

use crate::consistency::{
    lemma_extend_vote_length_wf, lemma_invoke_threshold_wf, lemma_new_vote_id_unused,
    lemma_open_percent_vote_wf, lemma_open_vote_wf, lemma_register_threshold_wf,
    lemma_update_vote_topic_wf, lemma_vote_on_proposal_wf,
};
use crate::error::VoteError;
use crate::minting::lemma_mint_into_keys;
use crate::model::{Call, ClearedSignal, LedgerView};
use crate::permill::{lemma_mul_ceil_bounds, mul_ceil_spec};
use crate::tally::{
    is_active, lemma_room_for_idle, lemma_sides_within_total, lemma_sum_covers, signal_sum,
};
use crate::threshold::{Threshold, XorThreshold};
use crate::unique_id::lemma_next_unused;
use crate::vote::{Cid, VoterView};
use vstd::prelude::*;

verus! {

/// The ledger before any call is consistent.
pub proof fn lemma_empty_is_consistent()
    ensures
        LedgerView::empty().wf(),
{
}

/// Every call takes a consistent ledger to a consistent ledger. The empty
/// ledger is consistent, so every ledger that calls can reach is.
pub proof fn lemma_step_keeps_consistency(pre: LedgerView, call: Call)
    requires
        pre.wf(),
        call.admissible(pre),
    ensures
        pre.step(call).wf(),
{
    match call {
        Call::GenerateUniqueId => {
            let post = pre.step(call);
            assert forall|vote_id: u64| #[trigger]
                post.vote_states.contains_key(vote_id) implies post.vote_consistent(vote_id) by {
                assert(pre.vote_consistent(vote_id));
            }
        },
        Call::RegisterThreshold { input } => {
            lemma_register_threshold_wf(pre, input);
        },
        Call::OpenVote { now, topic, equal, shares, threshold, duration } => {
            lemma_open_vote_wf(pre, now, topic, equal, shares, threshold, duration);
        },
        Call::OpenPercentVote { now, topic, equal, shares, fraction, duration } => {
            lemma_open_percent_vote_wf(pre, now, topic, equal, shares, fraction, duration);
        },
        Call::InvokeThreshold { now, threshold_id, topic, shares, duration } => {
            lemma_invoke_threshold_wf(pre, now, threshold_id, topic, shares, duration);
        },
        Call::VoteOnProposal { now, vote_id, voter, direction, justification } => {
            lemma_vote_on_proposal_wf(pre, now, vote_id, voter, direction, justification);
        },
        Call::ExtendVoteLength { now, vote_id, blocks_from_now } => {
            lemma_extend_vote_length_wf(pre, now, vote_id, blocks_from_now);
        },
        Call::UpdateVoteTopic { vote_id, new_topic, clear } => {
            lemma_update_vote_topic_wf(pre, vote_id, new_topic, clear);
        },
    }
}

/// No partial writes. A call that the ledger rejects leaves the ledger
/// exactly as it was.
pub proof fn lemma_rejected_call_changes_nothing(pre: LedgerView, call: Call)
    requires
        call.rejected(pre),
    ensures
        pre.step(call) == pre,
{
}

/// Fixed at creation. No call changes the minted signal, the threshold or
/// the opening block of a vote that exists.
pub proof fn lemma_terms_are_fixed(pre: LedgerView, call: Call, vote_id: u64)
    requires
        pre.wf(),
        pre.vote_states.contains_key(vote_id),
    ensures
        pre.step(call).vote_states.contains_key(vote_id),
        pre.step(call).vote_states[vote_id].total_possible_turnout
            == pre.vote_states[vote_id].total_possible_turnout,
        pre.step(call).vote_states[vote_id].threshold == pre.vote_states[vote_id].threshold,
        pre.step(call).vote_states[vote_id].initialized == pre.vote_states[vote_id].initialized,
{
    lemma_new_vote_id_unused(pre);
}

/// Conservation of signal. In a consistent ledger, the two tallies of a vote
/// together never exceed the signal minted for it, and that signal is the
/// sum of the magnitudes of the vote's records, of which each member of the
/// roster has exactly one. The tally in favor is the sum of the magnitudes
/// of the records in favor, less the signal that changes of topic have
/// cleared from it, and likewise the tally against. So each tally is exactly
/// the sum for its direction if and only if no signal was cleared from it.
pub proof fn lemma_conservation(ledger: LedgerView, vote_id: u64)
    requires
        ledger.wf(),
        ledger.vote_states.contains_key(vote_id),
    ensures
        ledger.vote_states[vote_id].in_favor + ledger.vote_states[vote_id].against
            <= ledger.vote_states[vote_id].total_possible_turnout,
        ledger.total_signal_issuance[vote_id] == ledger.vote_states[vote_id].total_possible_turnout,
        signal_sum(ledger.ballots_of(vote_id), None)
            == ledger.vote_states[vote_id].total_possible_turnout,
        ledger.rosters[vote_id].no_duplicates(),
        forall|member: u64|
            ledger.vote_logger.contains_key((vote_id, member))
                <==> #[trigger] ledger.rosters[vote_id].contains(member),
        ledger.vote_states[vote_id].in_favor + ledger.cleared[vote_id].in_favor == signal_sum(
            ledger.ballots_of(vote_id),
            Some(VoterView::InFavor),
        ),
        ledger.vote_states[vote_id].against + ledger.cleared[vote_id].against == signal_sum(
            ledger.ballots_of(vote_id),
            Some(VoterView::Against),
        ),
        ledger.cleared[vote_id].in_favor == 0 <==> ledger.vote_states[vote_id].in_favor
            == signal_sum(ledger.ballots_of(vote_id), Some(VoterView::InFavor)),
        ledger.cleared[vote_id].against == 0 <==> ledger.vote_states[vote_id].against
            == signal_sum(ledger.ballots_of(vote_id), Some(VoterView::Against)),
{
    assert(ledger.vote_consistent(vote_id));
}

/// The signal of the votes that exist before a call is the same after it:
/// each such vote has the same issuance, the same members hold records in
/// it, and each record has the magnitude it had.
pub open spec fn minted_signal_kept(pre: LedgerView, post: LedgerView) -> bool {
    &&& forall|vote_id: u64| #[trigger]
        pre.total_signal_issuance.contains_key(vote_id) ==> {
            &&& post.total_signal_issuance.contains_key(vote_id)
            &&& post.total_signal_issuance[vote_id] == pre.total_signal_issuance[vote_id]
            &&& post.rosters[vote_id] == pre.rosters[vote_id]
        }
    &&& forall|vote_id: u64, member: u64|
        pre.total_signal_issuance.contains_key(vote_id) ==> {
            &&& #[trigger] post.vote_logger.contains_key((vote_id, member))
                == pre.vote_logger.contains_key((vote_id, member))
            &&& pre.vote_logger.contains_key((vote_id, member)) ==> post.vote_logger[(
                vote_id,
                member,
            )].magnitude == pre.vote_logger[(vote_id, member)].magnitude
        }
}

proof fn lemma_open_keeps_minted(
    pre: LedgerView,
    now: u64,
    topic: Option<Cid>,
    equal: bool,
    shares: Option<Seq<(u64, u64)>>,
    threshold: Threshold<u64>,
    duration: Option<u64>,
)
    requires
        pre.wf(),
    ensures
        minted_signal_kept(pre, pre.open_vote(now, topic, equal, shares, threshold, duration)),
        forall|vote_id: u64| #[trigger]
            pre.open_vote(
                now,
                topic,
                equal,
                shares,
                threshold,
                duration,
            ).total_signal_issuance.contains_key(vote_id)
                ==> pre.total_signal_issuance.contains_key(vote_id) || vote_id
                == pre.new_vote_id(),
{
    let post = pre.open_vote(now, topic, equal, shares, threshold, duration);
    if pre.open_vote_result(equal, shares, threshold) is Ok {
        lemma_new_vote_id_unused(pre);
        assert forall|vote_id: u64, member: u64|
            pre.total_signal_issuance.contains_key(vote_id) implies {
            &&& #[trigger] post.vote_logger.contains_key((vote_id, member))
                == pre.vote_logger.contains_key((vote_id, member))
            &&& post.vote_logger[(vote_id, member)] == pre.vote_logger[(vote_id, member)]
        } by {
            lemma_mint_into_keys(
                pre.vote_logger,
                pre.new_vote_id(),
                shares->0,
                (vote_id, member),
            );
        }
    }
}

/// Signal is minted once. No call changes the signal of a vote that exists:
/// its issuance, the members of its roster and the magnitude of every
/// record stay as they were. A call mints signal for at most one vote, and
/// only under the id that is drawn for a new vote, which no vote has.
pub proof fn lemma_single_mint(pre: LedgerView, call: Call)
    requires
        pre.wf(),
    ensures
        minted_signal_kept(pre, pre.step(call)),
        !pre.total_signal_issuance.contains_key(pre.new_vote_id()),
        forall|vote_id: u64| #[trigger]
            pre.step(call).total_signal_issuance.contains_key(vote_id)
                ==> pre.total_signal_issuance.contains_key(vote_id) || vote_id
                == pre.new_vote_id(),
{
    lemma_new_vote_id_unused(pre);
    match call {
        Call::OpenVote { now, topic, equal, shares, threshold, duration } => {
            lemma_open_keeps_minted(pre, now, topic, equal, shares, threshold, duration);
        },
        Call::OpenPercentVote { now, topic, equal, shares, fraction, duration } => {
            lemma_open_keeps_minted(
                pre,
                now,
                topic,
                equal,
                shares,
                LedgerView::resolve(shares, fraction),
                duration,
            );
        },
        Call::InvokeThreshold { now, threshold_id, topic, shares, duration } => {
            if pre.vote_thresholds.contains_key(threshold_id) {
                let config = pre.vote_thresholds[threshold_id];
                match config.threshold {
                    XorThreshold::Signal(threshold) => {
                        lemma_open_keeps_minted(
                            pre,
                            now,
                            topic,
                            config.org is Equal,
                            shares,
                            threshold,
                            duration,
                        );
                    },
                    XorThreshold::Percent(threshold) => {
                        lemma_open_keeps_minted(
                            pre,
                            now,
                            topic,
                            config.org is Equal,
                            shares,
                            LedgerView::resolve(shares, threshold),
                            duration,
                        );
                    },
                }
            }
        },
        _ => {},
    }
}

/// Registered thresholds stay. No call changes or removes a threshold that
/// is registered: registering stores the new threshold under an id that no
/// threshold has. The bound on the number of thresholds is that of any map
/// in memory.
pub proof fn lemma_thresholds_stay(pre: LedgerView, call: Call, threshold_id: u64)
    requires
        pre.wf(),
        pre.vote_thresholds.dom().len() < 0x1_0000_0000_0000_0000,
        pre.vote_thresholds.contains_key(threshold_id),
    ensures
        pre.step(call).vote_thresholds.contains_key(threshold_id),
        pre.step(call).vote_thresholds[threshold_id] == pre.vote_thresholds[threshold_id],
        pre.vote_thresholds[threshold_id].id == threshold_id,
{
    lemma_next_unused(pre.threshold_id_counter, pre.vote_thresholds.dom());
}

/// Whether a last block is no earlier than another, where a vote without a
/// last block ends later than any vote with one.
pub open spec fn ends_no_earlier(before: Option<u64>, after: Option<u64>) -> bool {
    match (before, after) {
        (Some(old_end), Some(new_end)) => old_end <= new_end,
        (None, Some(_)) => false,
        (_, None) => before is None,
    }
}

/// Monotonic expiry. No call moves the last block of an existing vote to an
/// earlier block, removes it, or gives one to a vote that had none.
pub proof fn lemma_monotonic_expiry(pre: LedgerView, call: Call, vote_id: u64)
    requires
        pre.wf(),
        pre.vote_states.contains_key(vote_id),
    ensures
        pre.step(call).vote_states.contains_key(vote_id),
        ends_no_earlier(pre.vote_states[vote_id].ends, pre.step(call).vote_states[vote_id].ends),
{
    lemma_new_vote_id_unused(pre);
}

/// Extending a vote to a block that is not later than its last block, or
/// extending a vote that has no last block, changes nothing.
pub proof fn lemma_extend_is_noop(pre: LedgerView, now: u64, vote_id: u64, blocks_from_now: u64)
    requires
        pre.vote_states.contains_key(vote_id),
        now + blocks_from_now <= u64::MAX,
        pre.vote_states[vote_id].ends matches Some(last) ==> now + blocks_from_now <= last,
    ensures
        pre.extend_vote_length(now, vote_id, blocks_from_now) == pre,
{
    assert(pre.extend_vote_length(now, vote_id, blocks_from_now) =~= pre);
}

/// Extending a vote to a later block moves its last block exactly there.
pub proof fn lemma_extend_moves_end(pre: LedgerView, now: u64, vote_id: u64, blocks_from_now: u64)
    requires
        pre.vote_states.contains_key(vote_id),
        now + blocks_from_now <= u64::MAX,
        pre.vote_states[vote_id].ends matches Some(last) && last < now + blocks_from_now,
    ensures
        pre.extend_vote_length(now, vote_id, blocks_from_now).vote_states[vote_id].ends == Some(
            (now + blocks_from_now) as u64,
        ),
{
}

/// Revote. When a member's vote in favor is accepted and then the same
/// member's vote against is accepted, the second vote takes exactly the
/// member's magnitude out of the tally in favor and puts exactly that into
/// the tally against. The sum of the tallies and the minted signal stay the
/// same, and the member's magnitude is what it was before either vote.
pub proof fn lemma_revote(
    pre: LedgerView,
    first_now: u64,
    second_now: u64,
    vote_id: u64,
    voter: u64,
    first_justification: Option<Cid>,
    second_justification: Option<Cid>,
)
    requires
        pre.vote_on_proposal_result(first_now, vote_id, voter, VoterView::InFavor) is Ok,
        pre.vote_on_proposal(
            first_now,
            vote_id,
            voter,
            VoterView::InFavor,
            first_justification,
        ).vote_on_proposal_result(second_now, vote_id, voter, VoterView::Against) is Ok,
    ensures
        ({
            let magnitude = pre.vote_logger[(vote_id, voter)].magnitude;
            let mid = pre.vote_on_proposal(
                first_now,
                vote_id,
                voter,
                VoterView::InFavor,
                first_justification,
            );
            let post = mid.vote_on_proposal(
                second_now,
                vote_id,
                voter,
                VoterView::Against,
                second_justification,
            );
            &&& post.vote_logger[(vote_id, voter)].magnitude == magnitude
            &&& post.vote_logger[(vote_id, voter)].direction == VoterView::Against
            &&& post.vote_states[vote_id].in_favor == mid.vote_states[vote_id].in_favor - magnitude
            &&& post.vote_states[vote_id].against == mid.vote_states[vote_id].against + magnitude
            &&& post.vote_states[vote_id].in_favor + post.vote_states[vote_id].against
                == mid.vote_states[vote_id].in_favor + mid.vote_states[vote_id].against
            &&& post.vote_states[vote_id].total_possible_turnout
                == pre.vote_states[vote_id].total_possible_turnout
        }),
{
}

/// No going back to not having voted. A member whose record holds any
/// direction but `Uninitialized` cannot return to `Uninitialized`: in a vote
/// that exists and has not expired the call fails with
/// `UnsupportedTransition`, and the ledger, tallies included, stays as it
/// was.
pub proof fn lemma_unvote_rejected(
    pre: LedgerView,
    now: u64,
    vote_id: u64,
    voter: u64,
    justification: Option<Cid>,
)
    requires
        pre.vote_states.contains_key(vote_id),
        !pre.vote_states[vote_id].is_expired_spec(now),
        pre.vote_logger.contains_key((vote_id, voter)),
        pre.vote_logger[(vote_id, voter)].direction != VoterView::Uninitialized,
    ensures
        pre.vote_on_proposal_result(now, vote_id, voter, VoterView::Uninitialized) == Err::<
            (),
            VoteError,
        >(VoteError::UnsupportedTransition),
        pre.vote_on_proposal(now, vote_id, voter, VoterView::Uninitialized, justification) == pre,
{
}

/// Going back to not having voted is the only change of direction that a
/// consistent ledger refuses. In a vote from whose tallies no signal was cleared,
/// every change to `InFavor`, `Against` or `Abstain` from another direction
/// is admitted by the tallies.
pub proof fn lemma_other_changes_admitted(
    pre: LedgerView,
    vote_id: u64,
    voter: u64,
    direction: VoterView,
)
    requires
        pre.wf(),
        pre.vote_states.contains_key(vote_id),
        pre.cleared[vote_id] == ClearedSignal::none(),
        pre.vote_logger.contains_key((vote_id, voter)),
        direction != VoterView::Uninitialized,
    ensures
        pre.vote_states[vote_id].apply_spec(
            pre.vote_logger[(vote_id, voter)].magnitude,
            pre.vote_logger[(vote_id, voter)].direction,
            direction,
        ) is Some,
{
    assert(pre.vote_consistent(vote_id));
    let roster = pre.rosters[vote_id];
    let cast = pre.ballots_of(vote_id);
    assert(roster.contains(voter));
    let index = choose|i: int| 0 <= i < roster.len() && roster[i] == voter;
    assert(cast[index] == pre.vote_logger[(vote_id, voter)]);
    lemma_sum_covers(cast, index, Some(VoterView::InFavor));
    lemma_sum_covers(cast, index, Some(VoterView::Against));
    lemma_sides_within_total(cast);
    if !is_active(cast[index].direction) {
        lemma_room_for_idle(cast, index);
    }
}

/// Rounding up. A resolved bound is the least amount of signal that is no
/// less than the exact fraction of the turnout: signal meets the fraction
/// exactly when it meets the resolved bound, so no remainder of the division
/// lets less signal pass.
pub proof fn lemma_resolved_bound_is_least(parts: nat, turnout: nat, amount: nat)
    requires
        parts <= 1_000_000,
    ensures
        amount * 1_000_000 >= parts * turnout <==> amount >= mul_ceil_spec(parts, turnout),
{
    lemma_mul_ceil_bounds(parts, turnout);
    let bound = mul_ceil_spec(parts, turnout);
    if amount >= bound {
        assert(amount * 1_000_000 >= bound * 1_000_000) by (nonlinear_arith)
            requires
                amount >= bound,
        ;
    } else {
        assert(amount * 1_000_000 <= (bound - 1) * 1_000_000) by (nonlinear_arith)
            requires
                amount <= bound - 1,
        ;
    }
}

} // verus!

//! Sums of signal over the ballots of one vote, by direction, and how a
//! single change of a ballot moves them.

use crate::vote::{Vote, VoterView};
use vstd::prelude::*;

verus! {

/// The signal that a ballot adds to the sum for `side`: its magnitude if it
/// holds that direction, or in any case if no direction is asked for.
pub open spec fn counted(ballot: Vote, side: Option<VoterView>) -> nat {
    match side {
        None => ballot.magnitude as nat,
        Some(direction) => if ballot.direction == direction {
            ballot.magnitude as nat
        } else {
            0
        },
    }
}

/// The signal of the ballots that hold the direction `side`; with `None`,
/// the signal of all ballots.
pub open spec fn signal_sum(ballots: Seq<Vote>, side: Option<VoterView>) -> nat
    decreases ballots.len(),
{
    if ballots.len() == 0 {
        0
    } else {
        signal_sum(ballots.drop_last(), side) + counted(ballots.last(), side)
    }
}

/// Whether a direction counts in one of the two tallies.
pub open spec fn is_active(direction: VoterView) -> bool {
    direction == VoterView::InFavor || direction == VoterView::Against
}

/// Replacing one ballot takes out what the old one counted for and puts in
/// what the new one counts for.
pub proof fn lemma_sum_update(ballots: Seq<Vote>, index: int, ballot: Vote, side: Option<VoterView>)
    requires
        0 <= index < ballots.len(),
    ensures
        signal_sum(ballots.update(index, ballot), side) + counted(ballots[index], side)
            == signal_sum(ballots, side) + counted(ballot, side),
    decreases ballots.len(),
{
    let updated = ballots.update(index, ballot);
    if index == ballots.len() - 1 {
        assert(updated.drop_last() =~= ballots.drop_last());
    } else {
        assert(updated.drop_last() =~= ballots.drop_last().update(index, ballot));
        lemma_sum_update(ballots.drop_last(), index, ballot, side);
    }
}

/// No ballot counts for more than the sum it is part of.
pub proof fn lemma_sum_covers(ballots: Seq<Vote>, index: int, side: Option<VoterView>)
    requires
        0 <= index < ballots.len(),
    ensures
        counted(ballots[index], side) <= signal_sum(ballots, side),
    decreases ballots.len(),
{
    if index < ballots.len() - 1 {
        lemma_sum_covers(ballots.drop_last(), index, side);
    }
}

/// The two tallies together never exceed the signal of all ballots.
pub proof fn lemma_sides_within_total(ballots: Seq<Vote>)
    ensures
        signal_sum(ballots, Some(VoterView::InFavor)) + signal_sum(
            ballots,
            Some(VoterView::Against),
        ) <= signal_sum(ballots, None),
    decreases ballots.len(),
{
    if ballots.len() > 0 {
        lemma_sides_within_total(ballots.drop_last());
    }
}

/// A ballot that counts in neither tally still has room: the tallies plus
/// its magnitude stay within the signal of all ballots.
pub proof fn lemma_room_for_idle(ballots: Seq<Vote>, index: int)
    requires
        0 <= index < ballots.len(),
        !is_active(ballots[index].direction),
    ensures
        signal_sum(ballots, Some(VoterView::InFavor)) + signal_sum(
            ballots,
            Some(VoterView::Against),
        ) + ballots[index].magnitude <= signal_sum(ballots, None),
    decreases ballots.len(),
{
    if index == ballots.len() - 1 {
        lemma_sides_within_total(ballots.drop_last());
    } else {
        lemma_room_for_idle(ballots.drop_last(), index);
    }
}

/// Where no ballot holds an active direction, both tallies are zero.
pub proof fn lemma_idle_sums_zero(ballots: Seq<Vote>)
    requires
        forall|i: int| 0 <= i < ballots.len() ==> !is_active(#[trigger] ballots[i].direction),
    ensures
        signal_sum(ballots, Some(VoterView::InFavor)) == 0,
        signal_sum(ballots, Some(VoterView::Against)) == 0,
    decreases ballots.len(),
{
    if ballots.len() > 0 {
        lemma_idle_sums_zero(ballots.drop_last());
    }
}

} // verus!

//! What minting does to the records: which keys it adds, which records it
//! writes, and what they add up to.

use crate::group::{members_of, stake_sum};
use crate::model::{ballots, mint_into};
use crate::tally::{is_active, lemma_idle_sums_zero, signal_sum};
use crate::vote::{Vote, VoterView};
use vstd::prelude::*;

verus! {

/// The records that minting writes, in the order of the pairs.
pub open spec fn minted_ballots(shares: Seq<(u64, u64)>) -> Seq<Vote> {
    shares.map_values(|share: (u64, u64)| Vote::minted(share.1))
}

/// After minting, a key holds a record if it held one before or if it names
/// the vote and one of the members minted for; every other record is as it
/// was.
pub proof fn lemma_mint_into_keys(
    logger: Map<(u64, u64), Vote>,
    vote_id: u64,
    shares: Seq<(u64, u64)>,
    key: (u64, u64),
)
    ensures
        mint_into(logger, vote_id, shares).contains_key(key) <==> logger.contains_key(key) || (
        key.0 == vote_id && members_of(shares).contains(key.1)),
        !(key.0 == vote_id && members_of(shares).contains(key.1)) ==> mint_into(
            logger,
            vote_id,
            shares,
        )[key] == logger[key],
    decreases shares.len(),
{
    if shares.len() > 0 {
        let rest = shares.drop_last();
        lemma_mint_into_keys(logger, vote_id, rest, key);
        assert(members_of(shares) =~= members_of(rest).push(shares.last().0));
        if members_of(rest).contains(key.1) {
            let i = choose|i: int| 0 <= i < members_of(rest).len() && members_of(rest)[i] == key.1;
            assert(members_of(shares)[i] == key.1);
        }
        if shares.last().0 == key.1 {
            assert(members_of(shares)[shares.len() - 1] == key.1);
        }
        if members_of(shares).contains(key.1) {
            let i = choose|i: int|
                0 <= i < members_of(shares).len() && members_of(shares)[i] == key.1;
            if i < rest.len() {
                assert(members_of(rest)[i] == key.1);
            }
        }
    }
}

/// After minting for distinct members, each member's record is unvoted and
/// holds the member's stake.
pub proof fn lemma_mint_into_record(
    logger: Map<(u64, u64), Vote>,
    vote_id: u64,
    shares: Seq<(u64, u64)>,
    index: int,
)
    requires
        members_of(shares).no_duplicates(),
        0 <= index < shares.len(),
    ensures
        mint_into(logger, vote_id, shares).contains_key((vote_id, shares[index].0)),
        mint_into(logger, vote_id, shares)[(vote_id, shares[index].0)] == Vote::minted(
            shares[index].1,
        ),
    decreases shares.len(),
{
    let rest = shares.drop_last();
    if index < shares.len() - 1 {
        assert(members_of(shares)[index] != members_of(shares)[shares.len() - 1]);
        assert forall|i: int, j: int|
            0 <= i < members_of(rest).len() && 0 <= j < members_of(rest).len() && i
                != j implies members_of(rest)[i] != members_of(rest)[j] by {
            assert(members_of(shares)[i] != members_of(shares)[j]);
        }
        lemma_mint_into_record(logger, vote_id, rest, index);
    }
}

/// The magnitudes of freshly minted records add up to the stakes, and none
/// of the records counts in a tally.
pub proof fn lemma_minted_sums(shares: Seq<(u64, u64)>)
    ensures
        signal_sum(minted_ballots(shares), None) == stake_sum(shares),
        signal_sum(minted_ballots(shares), Some(VoterView::InFavor)) == 0,
        signal_sum(minted_ballots(shares), Some(VoterView::Against)) == 0,
    decreases shares.len(),
{
    if shares.len() > 0 {
        lemma_minted_sums(shares.drop_last());
        assert(minted_ballots(shares).drop_last() =~= minted_ballots(shares.drop_last()));
    }
    assert forall|i: int| 0 <= i < minted_ballots(shares).len() implies !is_active(
        #[trigger] minted_ballots(shares)[i].direction,
    ) by {}
    lemma_idle_sums_zero(minted_ballots(shares));
}

/// After minting for distinct members, the ballots of the vote are the
/// freshly minted records.
pub proof fn lemma_minted_roster(
    logger: Map<(u64, u64), Vote>,
    vote_id: u64,
    shares: Seq<(u64, u64)>,
)
    requires
        members_of(shares).no_duplicates(),
    ensures
        ballots(mint_into(logger, vote_id, shares), vote_id, members_of(shares)) == minted_ballots(
            shares,
        ),
{
    let cast = ballots(mint_into(logger, vote_id, shares), vote_id, members_of(shares));
    assert forall|i: int| 0 <= i < shares.len() implies cast[i] == minted_ballots(shares)[i] by {
        lemma_mint_into_record(logger, vote_id, shares, i);
    }
    assert(cast =~= minted_ballots(shares));
}

/// Minting for one vote leaves the ballots of every other vote as they were.
pub proof fn lemma_mint_keeps_others(
    logger: Map<(u64, u64), Vote>,
    vote_id: u64,
    shares: Seq<(u64, u64)>,
    other: u64,
    roster: Seq<u64>,
)
    requires
        other != vote_id,
    ensures
        ballots(mint_into(logger, vote_id, shares), other, roster) == ballots(
            logger,
            other,
            roster,
        ),
{
    let after = ballots(mint_into(logger, vote_id, shares), other, roster);
    assert forall|i: int| 0 <= i < roster.len() implies after[i] == ballots(
        logger,
        other,
        roster,
    )[i] by {
        lemma_mint_into_keys(logger, vote_id, shares, (other, roster[i]));
    }
    assert(after =~= ballots(logger, other, roster));
}

} // verus!

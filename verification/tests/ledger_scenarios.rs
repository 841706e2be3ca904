use signal_vote::dispatch::Event;
use signal_vote::error::VoteError;
use signal_vote::group::{EqualGroup, Snapshot, StakeSource, WeightedGroup};
use signal_vote::ledger::VoteLedger;
use signal_vote::permill::Permill;
use signal_vote::threshold::{OrgRep, Threshold, ThresholdInput, XorThreshold};
use signal_vote::vote::{Cid, Vote, VoteOutcome, VoterView};

const A: u64 = 11;
const B: u64 = 12;
const C: u64 = 13;
const STRANGER: u64 = 99;

/// A registry with one flat organization (id 1) and one weighted one (id 2).
struct Registry;

impl StakeSource for Registry {
    fn get_equal_group(&self, organization: u64) -> Option<EqualGroup> {
        if organization == 1 {
            EqualGroup::new(vec![A, B, C])
        } else {
            None
        }
    }

    fn get_weighted_group(&self, organization: u64) -> Option<WeightedGroup> {
        if organization == 2 {
            WeightedGroup::new(40, vec![(A, 10), (B, 30)])
        } else {
            None
        }
    }
}

fn three_equal() -> Snapshot {
    Snapshot::Equal(EqualGroup::new(vec![A, B, C]))
}

fn two_weighted() -> Snapshot {
    Snapshot::Weighted(WeightedGroup::new(40, vec![(A, 10), (B, 30)]))
}

fn tally(ledger: &VoteLedger, vote_id: u64) -> (u64, u64) {
    let state = ledger.vote_states(vote_id).unwrap();
    (state.in_favor(), state.against())
}

#[test]
fn equal_vote_passes_at_two_of_three_and_expires_after_block_ten() {
    let mut ledger = VoteLedger::new();
    let id = ledger
        .open_vote(&Registry, 0, None, OrgRep::Equal(1), Threshold::new(2, None), Some(10))
        .unwrap();
    assert_eq!(id, 1);
    assert_eq!(ledger.total_signal_issuance(id), Some(3));
    assert_eq!(ledger.vote_states(id).unwrap().ends(), Some(10));
    assert_eq!(ledger.get_vote_outcome(id), Ok(VoteOutcome::Pending));

    assert_eq!(ledger.vote_on_proposal(1, id, A, VoterView::InFavor, None), Ok(()));
    assert_eq!(tally(&ledger, id), (1, 0));
    assert_eq!(ledger.get_vote_outcome(id), Ok(VoteOutcome::Pending));

    assert_eq!(ledger.vote_on_proposal(2, id, B, VoterView::InFavor, None), Ok(()));
    assert_eq!(tally(&ledger, id), (2, 0));
    assert_eq!(ledger.get_vote_outcome(id), Ok(VoteOutcome::Passed));

    assert_eq!(ledger.is_expired(10, id), Ok(false));
    assert_eq!(ledger.is_expired(11, id), Ok(true));
    assert_eq!(ledger.get_vote_outcome(id), Ok(VoteOutcome::Passed));
}

#[test]
fn weighted_vote_at_three_quarters_passes_at_forty_of_forty() {
    let mut ledger = VoteLedger::new();
    let threshold = Threshold::new(Permill::from_percent(75), None);
    let id = ledger
        .open_percent_vote(&Registry, 0, None, OrgRep::Weighted(2), threshold, None)
        .unwrap();
    let state = ledger.vote_states(id).unwrap();
    assert_eq!(state.total_possible_turnout(), 40);
    assert_eq!(state.threshold(), Threshold::new(30, None));
    assert_eq!(ledger.vote_logger(id, A).unwrap().magnitude(), 10);
    assert_eq!(ledger.vote_logger(id, B).unwrap().magnitude(), 30);

    assert_eq!(ledger.vote_on_proposal(0, id, A, VoterView::InFavor, None), Ok(()));
    assert_eq!(tally(&ledger, id), (10, 0));
    assert_eq!(ledger.get_vote_outcome(id), Ok(VoteOutcome::Pending));

    assert_eq!(ledger.vote_on_proposal(0, id, B, VoterView::InFavor, None), Ok(()));
    assert_eq!(tally(&ledger, id), (40, 0));
    assert_eq!(ledger.get_vote_outcome(id), Ok(VoteOutcome::Passed));
}

#[test]
fn half_of_a_turnout_of_three_is_a_threshold_of_two() {
    let mut ledger = VoteLedger::new();
    let threshold = Threshold::new(Permill::from_percent(50), Some(Permill::from_percent(50)));
    let id = ledger.open_percent_vote_with(0, None, &three_equal(), threshold, None).unwrap();
    assert_eq!(ledger.vote_states(id).unwrap().threshold(), Threshold::new(2, Some(2)));
    assert_eq!(ledger.vote_on_proposal(0, id, A, VoterView::InFavor, None), Ok(()));
    assert_eq!(ledger.get_vote_outcome(id), Ok(VoteOutcome::Pending));
}

#[test]
fn minting_writes_one_unvoted_record_per_member() {
    let mut ledger = VoteLedger::new();
    let id = ledger.open_vote_with(5, Some(Cid(7)), &three_equal(), Threshold::new(3, Some(1)), None).unwrap();
    for member in [A, B, C] {
        assert_eq!(
            ledger.vote_logger(id, member),
            Some(Vote::new(1, VoterView::Uninitialized, None))
        );
    }
    assert_eq!(ledger.vote_logger(id, STRANGER), None);
    let state = ledger.vote_states(id).unwrap();
    assert_eq!(state.topic(), Some(Cid(7)));
    assert_eq!(state.initialized(), 5);
    assert_eq!(state.ends(), None);
    assert_eq!((state.in_favor(), state.against()), (0, 0));
    assert_eq!(ledger.open_vote_counter(), 1);
    assert_eq!(ledger.vote_id_counter(), id);
}

#[test]
fn tallies_equal_the_signal_of_the_records_by_direction() {
    let mut ledger = VoteLedger::new();
    let id = ledger.open_vote_with(0, None, &two_weighted(), Threshold::new(40, None), None).unwrap();
    assert_eq!(ledger.vote_on_proposal(0, id, A, VoterView::Against, None), Ok(()));
    assert_eq!(ledger.vote_on_proposal(0, id, B, VoterView::InFavor, None), Ok(()));
    assert_eq!(tally(&ledger, id), (30, 10));
    assert_eq!(ledger.vote_on_proposal(0, id, A, VoterView::Abstain, None), Ok(()));
    assert_eq!(tally(&ledger, id), (30, 0));
    assert_eq!(ledger.vote_on_proposal(0, id, A, VoterView::InFavor, None), Ok(()));
    assert_eq!(tally(&ledger, id), (40, 0));
    let state = ledger.vote_states(id).unwrap();
    assert!(state.in_favor() + state.against() <= state.total_possible_turnout());
}

#[test]
fn a_second_vote_gets_its_own_id_and_leaves_the_first_vote_alone() {
    let mut ledger = VoteLedger::new();
    let first = ledger.open_vote_with(0, None, &two_weighted(), Threshold::new(1, None), None).unwrap();
    assert_eq!(ledger.vote_on_proposal(0, first, A, VoterView::InFavor, None), Ok(()));
    let second = ledger.open_vote_with(0, None, &two_weighted(), Threshold::new(1, None), None).unwrap();
    assert_eq!((first, second), (1, 2));
    assert_eq!(ledger.total_signal_issuance(first), Some(40));
    assert_eq!(
        ledger.vote_logger(first, A),
        Some(Vote::new(10, VoterView::InFavor, None))
    );
    assert_eq!(tally(&ledger, first), (10, 0));
    assert_eq!(
        ledger.vote_logger(second, A),
        Some(Vote::new(10, VoterView::Uninitialized, None))
    );
    assert_eq!(ledger.open_vote_counter(), 2);
}

#[test]
fn revote_moves_exactly_the_magnitude_between_the_tallies() {
    let mut ledger = VoteLedger::new();
    let id = ledger.open_vote_with(0, None, &two_weighted(), Threshold::new(40, None), None).unwrap();
    assert_eq!(ledger.vote_on_proposal(0, id, A, VoterView::InFavor, None), Ok(()));
    assert_eq!(ledger.vote_on_proposal(0, id, B, VoterView::InFavor, Some(Cid(1))), Ok(()));
    assert_eq!(tally(&ledger, id), (40, 0));
    assert_eq!(ledger.vote_on_proposal(0, id, B, VoterView::Against, Some(Cid(2))), Ok(()));
    assert_eq!(tally(&ledger, id), (10, 30));
    assert_eq!(ledger.vote_states(id).unwrap().total_possible_turnout(), 40);
    assert_eq!(
        ledger.vote_logger(id, B),
        Some(Vote::new(30, VoterView::Against, Some(Cid(2))))
    );
}

#[test]
fn going_back_to_uninitialized_is_rejected_and_changes_nothing() {
    let mut ledger = VoteLedger::new();
    let id = ledger.open_vote_with(0, None, &three_equal(), Threshold::new(2, None), None).unwrap();
    assert_eq!(ledger.vote_on_proposal(0, id, A, VoterView::InFavor, Some(Cid(4))), Ok(()));
    assert_eq!(
        ledger.vote_on_proposal(0, id, A, VoterView::Uninitialized, None),
        Err(VoteError::UnsupportedTransition)
    );
    assert_eq!(tally(&ledger, id), (1, 0));
    assert_eq!(
        ledger.vote_logger(id, A),
        Some(Vote::new(1, VoterView::InFavor, Some(Cid(4))))
    );
    assert_eq!(ledger.vote_on_proposal(0, id, B, VoterView::Abstain, None), Ok(()));
    assert_eq!(
        ledger.vote_on_proposal(0, id, B, VoterView::Uninitialized, None),
        Err(VoteError::UnsupportedTransition)
    );
}

#[test]
fn the_same_direction_twice_is_no_change() {
    let mut ledger = VoteLedger::new();
    let id = ledger.open_vote_with(0, None, &three_equal(), Threshold::new(2, None), None).unwrap();
    assert_eq!(
        ledger.vote_on_proposal(0, id, A, VoterView::Uninitialized, None),
        Err(VoteError::NoChange)
    );
    assert_eq!(ledger.vote_on_proposal(0, id, A, VoterView::Against, None), Ok(()));
    assert_eq!(
        ledger.vote_on_proposal(0, id, A, VoterView::Against, Some(Cid(1))),
        Err(VoteError::NoChange)
    );
    assert_eq!(ledger.vote_logger(id, A), Some(Vote::new(1, VoterView::Against, None)));
    assert_eq!(tally(&ledger, id), (0, 1));
}

#[test]
fn votes_are_accepted_on_the_last_block_and_rejected_after_it() {
    let mut ledger = VoteLedger::new();
    let id = ledger.open_vote_with(100, None, &three_equal(), Threshold::new(2, None), Some(5)).unwrap();
    assert_eq!(ledger.vote_on_proposal(105, id, A, VoterView::InFavor, None), Ok(()));
    assert_eq!(
        ledger.vote_on_proposal(106, id, B, VoterView::InFavor, None),
        Err(VoteError::VoteExpired)
    );
    assert_eq!(tally(&ledger, id), (1, 0));
    assert_eq!(
        ledger.vote_logger(id, B),
        Some(Vote::new(1, VoterView::Uninitialized, None))
    );
    // An expired vote is reported before a missing record is.
    assert_eq!(
        ledger.vote_on_proposal(106, id, STRANGER, VoterView::InFavor, None),
        Err(VoteError::VoteExpired)
    );
}

#[test]
fn unknown_votes_voters_and_thresholds_are_reported() {
    let mut ledger = VoteLedger::new();
    assert_eq!(
        ledger.vote_on_proposal(0, 1, A, VoterView::InFavor, None),
        Err(VoteError::VoteStateNotFound)
    );
    assert_eq!(ledger.get_vote_outcome(1), Err(VoteError::VoteStateNotFound));
    assert_eq!(ledger.is_expired(0, 1), Err(VoteError::VoteStateNotFound));
    assert_eq!(ledger.extend_vote_length(0, 1, 10), Err(VoteError::VoteStateNotFound));
    assert_eq!(ledger.update_vote_topic(1, Cid(1), true), Err(VoteError::VoteStateNotFound));
    assert_eq!(
        ledger.invoke_threshold(&Registry, 0, 1, None, None),
        Err(VoteError::ThresholdNotFound)
    );
    assert_eq!(
        ledger.invoke_threshold_with(0, 1, None, &three_equal(), None),
        Err(VoteError::ThresholdNotFound)
    );
    let id = ledger.open_vote_with(0, None, &three_equal(), Threshold::new(2, None), None).unwrap();
    assert_eq!(
        ledger.vote_on_proposal(0, id, STRANGER, VoterView::InFavor, None),
        Err(VoteError::NoSignalForVoter)
    );
    assert_eq!(ledger.vote_states(id + 1), None);
    assert_eq!(ledger.total_signal_issuance(id + 1), None);
    assert!(ledger.id_is_available(id + 1));
    assert!(!ledger.id_is_available(id));
}

#[test]
fn a_threshold_beyond_the_minted_signal_is_rejected_without_a_trace() {
    let mut ledger = VoteLedger::new();
    assert_eq!(
        ledger.open_vote_with(0, None, &three_equal(), Threshold::new(4, None), None),
        Err(VoteError::ThresholdExceedsBounds)
    );
    assert_eq!(
        ledger.open_vote_with(0, None, &three_equal(), Threshold::new(3, Some(4)), None),
        Err(VoteError::ThresholdExceedsBounds)
    );
    assert_eq!(ledger.vote_id_counter(), 0);
    assert_eq!(ledger.open_vote_counter(), 0);
    assert_eq!(ledger.vote_logger(1, A), None);
    assert_eq!(ledger.total_signal_issuance(1), None);
    assert_eq!(
        ledger.open_vote_with(0, None, &three_equal(), Threshold::new(3, Some(3)), None),
        Ok(1)
    );
}

#[test]
fn an_unknown_organization_is_reported_by_minting_mode() {
    let mut ledger = VoteLedger::new();
    assert_eq!(
        ledger.open_vote(&Registry, 0, None, OrgRep::Equal(2), Threshold::new(0, None), None),
        Err(VoteError::EqualMembershipUnavailable)
    );
    assert_eq!(
        ledger.open_vote(&Registry, 0, None, OrgRep::Weighted(1), Threshold::new(0, None), None),
        Err(VoteError::WeightedMembershipUnavailable)
    );
    assert_eq!(
        ledger.open_percent_vote_with(
            0,
            None,
            &Snapshot::Weighted(None),
            Threshold::new(Permill::from_percent(1), None),
            None
        ),
        Err(VoteError::WeightedMembershipUnavailable)
    );
    assert_eq!(
        ledger.open_vote_with(0, None, &Snapshot::Equal(None), Threshold::new(0, None), None),
        Err(VoteError::EqualMembershipUnavailable)
    );
    assert_eq!(ledger.open_vote_counter(), 0);
    assert_eq!(ledger.vote_id_counter(), 0);
}

#[test]
fn an_empty_group_is_not_an_unknown_one() {
    let mut ledger = VoteLedger::new();
    let empty = Snapshot::Equal(EqualGroup::new(vec![]));
    let id = ledger.open_vote_with(0, None, &empty, Threshold::new(0, None), None).unwrap();
    assert_eq!(ledger.total_signal_issuance(id), Some(0));
    assert_eq!(ledger.get_vote_outcome(id), Ok(VoteOutcome::Passed));
    assert_eq!(
        ledger.open_vote_with(0, None, &empty, Threshold::new(1, None), None),
        Err(VoteError::ThresholdExceedsBounds)
    );
}

#[test]
fn extending_never_moves_the_last_block_back() {
    let mut ledger = VoteLedger::new();
    let id = ledger.open_vote_with(0, None, &three_equal(), Threshold::new(2, None), Some(10)).unwrap();
    assert_eq!(ledger.extend_vote_length(3, id, 5), Ok(()));
    assert_eq!(ledger.vote_states(id).unwrap().ends(), Some(10));
    assert_eq!(ledger.extend_vote_length(3, id, 7), Ok(()));
    assert_eq!(ledger.vote_states(id).unwrap().ends(), Some(10));
    assert_eq!(ledger.extend_vote_length(3, id, 8), Ok(()));
    assert_eq!(ledger.vote_states(id).unwrap().ends(), Some(11));
    assert_eq!(ledger.is_expired(11, id), Ok(false));
    assert_eq!(ledger.vote_on_proposal(11, id, A, VoterView::InFavor, None), Ok(()));
}

#[test]
fn a_vote_without_a_last_block_never_gets_one() {
    let mut ledger = VoteLedger::new();
    let id = ledger.open_vote_with(0, None, &three_equal(), Threshold::new(2, None), None).unwrap();
    assert_eq!(ledger.extend_vote_length(3, id, 8), Ok(()));
    assert_eq!(ledger.vote_states(id).unwrap().ends(), None);
    assert_eq!(ledger.is_expired(u64::MAX, id), Ok(false));
}

#[test]
fn a_new_topic_keeps_or_clears_the_tallies_and_never_touches_records() {
    let mut ledger = VoteLedger::new();
    let id = ledger.open_vote_with(0, Some(Cid(1)), &two_weighted(), Threshold::new(40, None), None).unwrap();
    assert_eq!(ledger.vote_on_proposal(0, id, A, VoterView::InFavor, None), Ok(()));
    assert_eq!(ledger.vote_on_proposal(0, id, B, VoterView::Against, None), Ok(()));

    assert_eq!(ledger.update_vote_topic(id, Cid(2), false), Ok(()));
    assert_eq!(ledger.vote_states(id).unwrap().topic(), Some(Cid(2)));
    assert_eq!(tally(&ledger, id), (10, 30));

    assert_eq!(ledger.update_vote_topic(id, Cid(3), true), Ok(()));
    let state = ledger.vote_states(id).unwrap();
    assert_eq!(state.topic(), Some(Cid(3)));
    assert_eq!((state.in_favor(), state.against()), (0, 0));
    assert_eq!(state.total_possible_turnout(), 40);
    assert_eq!(state.threshold(), Threshold::new(40, None));
    assert_eq!(ledger.vote_logger(id, A), Some(Vote::new(10, VoterView::InFavor, None)));
    assert_eq!(ledger.vote_logger(id, B), Some(Vote::new(30, VoterView::Against, None)));
    assert_eq!(ledger.total_signal_issuance(id), Some(40));
}

#[test]
fn after_clearing_a_tally_cannot_give_back_more_than_it_holds() {
    let mut ledger = VoteLedger::new();
    let id = ledger.open_vote_with(0, None, &two_weighted(), Threshold::new(40, None), None).unwrap();
    assert_eq!(ledger.vote_on_proposal(0, id, B, VoterView::InFavor, None), Ok(()));
    assert_eq!(ledger.update_vote_topic(id, Cid(9), true), Ok(()));
    // B is on record in favor, yet the cleared tally holds none of B's signal.
    assert_eq!(
        ledger.vote_on_proposal(0, id, B, VoterView::Against, None),
        Err(VoteError::UnsupportedTransition)
    );
    assert_eq!(tally(&ledger, id), (0, 0));
    assert_eq!(ledger.vote_logger(id, B), Some(Vote::new(30, VoterView::InFavor, None)));
    assert_eq!(ledger.vote_on_proposal(0, id, A, VoterView::InFavor, None), Ok(()));
    assert_eq!(tally(&ledger, id), (10, 0));
}

#[test]
fn registered_thresholds_get_increasing_ids_and_stay_as_registered() {
    let mut ledger = VoteLedger::new();
    let absolute = ThresholdInput::new(
        OrgRep::Equal(1),
        XorThreshold::Signal(Threshold::new(2, Some(2))),
    );
    let fraction = ThresholdInput::new(
        OrgRep::Weighted(2),
        XorThreshold::Percent(Threshold::new(Permill::from_percent(75), None)),
    );
    let first = ledger.register_threshold(absolute);
    let second = ledger.register_threshold(fraction);
    assert_eq!((first, second), (1, 2));
    assert_eq!(ledger.threshold_id_counter(), 2);
    let stored = ledger.vote_thresholds(first).unwrap();
    assert_eq!(stored.id(), first);
    assert_eq!(stored.org(), OrgRep::Equal(1));
    match stored.threshold() {
        XorThreshold::Signal(threshold) => assert_eq!(threshold, Threshold::new(2, Some(2))),
        XorThreshold::Percent(_) => panic!("stored in the other form"),
    }
    let stored = ledger.vote_thresholds(second).unwrap();
    assert_eq!(stored.org().org(), 2);
    match stored.threshold() {
        XorThreshold::Percent(threshold) => {
            assert_eq!(threshold.in_favor().deconstruct(), 750_000);
            assert!(threshold.against().is_none());
        }
        XorThreshold::Signal(_) => panic!("stored in the other form"),
    }
    assert!(ledger.vote_thresholds(3).is_none());
}

#[test]
fn invoking_a_threshold_opens_the_vote_it_describes() {
    let mut ledger = VoteLedger::new();
    let absolute = ledger.register_threshold(ThresholdInput::new(
        OrgRep::Equal(1),
        XorThreshold::Signal(Threshold::new(2, Some(2))),
    ));
    let fraction = ledger.register_threshold(ThresholdInput::new(
        OrgRep::Weighted(2),
        XorThreshold::Percent(Threshold::new(Permill::from_percent(75), None)),
    ));
    let first = ledger.invoke_threshold(&Registry, 4, absolute, Some(Cid(1)), Some(6)).unwrap();
    let state = ledger.vote_states(first).unwrap();
    assert_eq!(state.total_possible_turnout(), 3);
    assert_eq!(state.threshold(), Threshold::new(2, Some(2)));
    assert_eq!(state.ends(), Some(10));
    assert_eq!(state.topic(), Some(Cid(1)));

    let second = ledger.invoke_threshold(&Registry, 4, fraction, None, None).unwrap();
    let state = ledger.vote_states(second).unwrap();
    assert_eq!(state.total_possible_turnout(), 40);
    assert_eq!(state.threshold(), Threshold::new(30, None));
    assert_eq!(ledger.open_vote_counter(), 2);

    let third = ledger.invoke_threshold_with(4, fraction, None, &two_weighted(), None).unwrap();
    assert_eq!(ledger.vote_states(third).unwrap().threshold(), Threshold::new(30, None));
}

#[test]
fn invoking_a_threshold_for_an_unknown_organization_fails_by_its_mode() {
    let mut ledger = VoteLedger::new();
    let equal = ledger.register_threshold(ThresholdInput::new(
        OrgRep::Equal(7),
        XorThreshold::Signal(Threshold::new(0, None)),
    ));
    let weighted = ledger.register_threshold(ThresholdInput::new(
        OrgRep::Weighted(7),
        XorThreshold::Percent(Threshold::new(Permill::from_percent(10), None)),
    ));
    assert_eq!(
        ledger.invoke_threshold(&Registry, 0, equal, None, None),
        Err(VoteError::EqualMembershipUnavailable)
    );
    assert_eq!(
        ledger.invoke_threshold(&Registry, 0, weighted, None, None),
        Err(VoteError::WeightedMembershipUnavailable)
    );
    assert_eq!(ledger.open_vote_counter(), 0);
}

#[test]
fn a_bound_against_rejects_unless_the_bound_in_favor_is_met() {
    let mut ledger = VoteLedger::new();
    let id = ledger.open_vote_with(0, None, &two_weighted(), Threshold::new(30, Some(10)), None).unwrap();
    assert_eq!(ledger.vote_on_proposal(0, id, A, VoterView::Against, None), Ok(()));
    assert_eq!(ledger.get_vote_outcome(id), Ok(VoteOutcome::Rejected));
    assert_eq!(ledger.vote_on_proposal(0, id, B, VoterView::InFavor, None), Ok(()));
    assert_eq!(tally(&ledger, id), (30, 10));
    assert_eq!(ledger.get_vote_outcome(id), Ok(VoteOutcome::Passed));
}

#[test]
fn drawing_an_id_moves_the_counter_and_opens_nothing() {
    let mut ledger = VoteLedger::new();
    assert_eq!(ledger.generate_unique_id(), 1);
    assert_eq!(ledger.generate_unique_id(), 2);
    assert_eq!(ledger.vote_id_counter(), 2);
    assert_eq!(ledger.open_vote_counter(), 0);
    let id = ledger.open_vote_with(0, None, &three_equal(), Threshold::new(1, None), None).unwrap();
    assert_eq!(id, 3);
}

#[test]
fn privileged_calls_need_authorization_and_report_events() {
    let mut ledger = VoteLedger::new();
    assert_eq!(
        ledger.create_signal_vote(0, A, false, None, &three_equal(), Threshold::new(2, None), None),
        Err(VoteError::NotAuthorized)
    );
    assert_eq!(
        ledger.create_percent_vote(
            0,
            A,
            false,
            None,
            &three_equal(),
            Threshold::new(Permill::from_percent(50), None),
            None
        ),
        Err(VoteError::NotAuthorized)
    );
    let input = ThresholdInput::new(OrgRep::Equal(1), XorThreshold::Signal(Threshold::new(2, None)));
    assert_eq!(ledger.set_threshold_default(false, input), Err(VoteError::NotAuthorized));
    assert_eq!(ledger.open_vote_counter(), 0);
    assert_eq!(ledger.threshold_id_counter(), 0);

    assert_eq!(ledger.set_threshold_default(true, input), Ok(Event::ThresholdSet(1)));
    assert_eq!(
        ledger.create_signal_vote(0, A, true, None, &three_equal(), Threshold::new(2, None), None),
        Ok(Event::NewVoteStarted(A, 1))
    );
    assert_eq!(
        ledger.create_percent_vote(
            0,
            B,
            true,
            None,
            &three_equal(),
            Threshold::new(Permill::from_percent(50), None),
            None
        ),
        Ok(Event::NewVoteStarted(B, 2))
    );
    assert_eq!(
        ledger.create_signal_vote(0, A, true, None, &three_equal(), Threshold::new(4, None), None),
        Err(VoteError::ThresholdExceedsBounds)
    );
    assert_eq!(
        ledger.submit_vote(0, C, 1, VoterView::InFavor, None),
        Ok(Event::Voted(1, C, VoterView::InFavor))
    );
    assert_eq!(
        ledger.submit_vote(0, C, 1, VoterView::InFavor, None),
        Err(VoteError::NoChange)
    );
    assert_eq!(tally(&ledger, 1), (1, 0));
}

#[test]
fn records_of_different_votes_and_members_never_share_a_place() {
    let mut ledger = VoteLedger::new();
    let wide = Snapshot::Weighted(WeightedGroup::new(6, vec![(0, 1), (1, 2), (u64::MAX, 3)]));
    let first = ledger.open_vote_with(0, None, &wide, Threshold::new(6, None), None).unwrap();
    let second = ledger.open_vote_with(0, None, &three_equal(), Threshold::new(3, None), None).unwrap();
    assert_eq!(ledger.vote_on_proposal(0, first, u64::MAX, VoterView::Against, None), Ok(()));
    assert_eq!(ledger.vote_on_proposal(0, first, 0, VoterView::InFavor, None), Ok(()));
    assert_eq!(ledger.vote_logger(first, 0), Some(Vote::new(1, VoterView::InFavor, None)));
    assert_eq!(ledger.vote_logger(first, 1), Some(Vote::new(2, VoterView::Uninitialized, None)));
    assert_eq!(
        ledger.vote_logger(first, u64::MAX),
        Some(Vote::new(3, VoterView::Against, None))
    );
    assert_eq!(ledger.vote_logger(second, 0), None);
    assert_eq!(ledger.vote_logger(second, u64::MAX), None);
    assert_eq!(ledger.vote_logger(0, first), None);
    assert_eq!(tally(&ledger, first), (1, 3));
    assert_eq!(tally(&ledger, second), (0, 0));
    assert_eq!(
        ledger.vote_logger(second, A),
        Some(Vote::new(1, VoterView::Uninitialized, None))
    );
}

fn assert_first_vote_holds_its_mint(ledger: &VoteLedger, first: u64) {
    assert_eq!(ledger.total_signal_issuance(first), Some(40));
    assert_eq!(ledger.vote_states(first).unwrap().total_possible_turnout(), 40);
    assert_eq!(ledger.vote_logger(first, A).unwrap().magnitude(), 10);
    assert_eq!(ledger.vote_logger(first, B).unwrap().magnitude(), 30);
    assert_eq!(ledger.vote_logger(first, C), None);
}

#[test]
fn no_sequence_of_calls_mints_twice_for_a_vote() {
    let mut ledger = VoteLedger::new();
    let first = ledger
        .open_vote(&Registry, 0, None, OrgRep::Weighted(2), Threshold::new(40, Some(40)), Some(10))
        .unwrap();
    assert_first_vote_holds_its_mint(&ledger, first);

    assert_eq!(ledger.vote_on_proposal(1, first, A, VoterView::InFavor, None), Ok(()));
    assert_first_vote_holds_its_mint(&ledger, first);
    assert_eq!(ledger.vote_on_proposal(1, first, A, VoterView::Against, None), Ok(()));
    assert_first_vote_holds_its_mint(&ledger, first);
    assert_eq!(ledger.extend_vote_length(2, first, 20), Ok(()));
    assert_first_vote_holds_its_mint(&ledger, first);
    assert_eq!(ledger.update_vote_topic(first, Cid(5), true), Ok(()));
    assert_first_vote_holds_its_mint(&ledger, first);

    let threshold = ledger.register_threshold(ThresholdInput::new(
        OrgRep::Weighted(2),
        XorThreshold::Percent(Threshold::new(Permill::from_percent(50), None)),
    ));
    assert_first_vote_holds_its_mint(&ledger, first);
    let second = ledger.invoke_threshold(&Registry, 3, threshold, None, None).unwrap();
    assert_first_vote_holds_its_mint(&ledger, first);
    let third = ledger
        .open_percent_vote(
            &Registry,
            3,
            None,
            OrgRep::Equal(1),
            Threshold::new(Permill::from_percent(50), None),
            None,
        )
        .unwrap();
    assert_first_vote_holds_its_mint(&ledger, first);
    let drawn = ledger.generate_unique_id();
    let fourth = ledger.open_vote_with(3, None, &three_equal(), Threshold::new(1, None), None).unwrap();
    assert_first_vote_holds_its_mint(&ledger, first);
    assert_eq!(
        ledger.open_vote_with(3, None, &three_equal(), Threshold::new(9, None), None),
        Err(VoteError::ThresholdExceedsBounds)
    );
    assert_first_vote_holds_its_mint(&ledger, first);

    assert_eq!((first, second, third, drawn, fourth), (1, 2, 3, 4, 5));
    assert_eq!(ledger.total_signal_issuance(second), Some(40));
    assert_eq!(ledger.total_signal_issuance(third), Some(3));
    assert_eq!(ledger.total_signal_issuance(drawn), None);
    assert_eq!(ledger.total_signal_issuance(fourth), Some(3));
    assert_eq!(ledger.open_vote_counter(), 4);
}

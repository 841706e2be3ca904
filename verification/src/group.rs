//! What the registry of members and stakes reports about an organization,
//! held in types that only admit consistent reports.

use crate::error::VoteError;
use crate::threshold::OrgRep;
use std::collections::HashSet;
use vstd::prelude::*;

verus! {

/// The members of a list of `(member, stake)` pairs, in order.
pub open spec fn members_of(shares: Seq<(u64, u64)>) -> Seq<u64> {
    shares.map_values(|share: (u64, u64)| share.0)
}

/// The sum of the stakes of a list of `(member, stake)` pairs.
pub open spec fn stake_sum(shares: Seq<(u64, u64)>) -> nat
    decreases shares.len(),
{
    if shares.len() == 0 {
        0
    } else {
        stake_sum(shares.drop_last()) + shares.last().1 as nat
    }
}

/// The pairs that give each member of a list one unit.
pub open spec fn equal_shares(members: Seq<u64>) -> Seq<(u64, u64)> {
    members.map_values(|member: u64| (member, 1u64))
}

/// No member occurs twice, and the stakes add up to an amount of signal.
pub open spec fn valid_shares(shares: Seq<(u64, u64)>) -> bool {
    &&& members_of(shares).no_duplicates()
    &&& stake_sum(shares) <= u64::MAX
}

/// One more pair adds its stake to the sum.
pub proof fn lemma_stake_sum_push(shares: Seq<(u64, u64)>, share: (u64, u64))
    ensures
        stake_sum(shares.push(share)) == stake_sum(shares) + share.1,
{
    assert(shares.push(share).drop_last() =~= shares);
}

/// The stakes of a part of the list add up to no more than those of the
/// whole list.
pub proof fn lemma_stake_sum_take(shares: Seq<(u64, u64)>, count: int)
    requires
        0 <= count <= shares.len(),
    ensures
        stake_sum(shares.take(count)) <= stake_sum(shares),
    decreases shares.len(),
{
    if count == shares.len() {
        assert(shares.take(count) =~= shares);
    } else {
        assert(shares.drop_last().take(count) =~= shares.take(count));
        lemma_stake_sum_take(shares.drop_last(), count);
    }
}

/// With one unit each, the stakes add up to the number of members.
pub proof fn lemma_equal_shares(members: Seq<u64>)
    ensures
        stake_sum(equal_shares(members)) == members.len(),
        members_of(equal_shares(members)) == members,
    decreases members.len(),
{
    assert(members_of(equal_shares(members)) =~= members);
    if members.len() > 0 {
        lemma_equal_shares(members.drop_last());
        assert(equal_shares(members).drop_last() =~= equal_shares(members.drop_last()));
    }
}

/// The members of an organization in which everyone has the same say.
#[derive(Debug)]
pub struct EqualGroup {
    members: Vec<u64>,
}

impl View for EqualGroup {
    type V = Seq<u64>;

    closed spec fn view(&self) -> Seq<u64> {
        self.members@
    }
}

impl EqualGroup {
    #[verifier::type_invariant]
    spec fn distinct(self) -> bool {
        self.members@.no_duplicates()
    }

    /// The group of the given members, or `None` if one of them occurs twice.
    pub fn new(members: Vec<u64>) -> (r: Option<EqualGroup>)
        ensures
            r is Some <==> members@.no_duplicates(),
            r matches Some(group) ==> group@ == members@,
    {
        broadcast use vstd::std_specs::hash::group_hash_axioms;

        let mut seen: HashSet<u64> = HashSet::new();
        let mut i: usize = 0;
        while i < members.len()
            invariant
                i <= members.len(),
                forall|j: int| 0 <= j < i ==> seen@.contains(#[trigger] members@[j]),
                forall|member: u64| #[trigger]
                    seen@.contains(member) ==> exists|j: int| 0 <= j < i && members@[j] == member,
                forall|j: int, k: int| 0 <= j < k < i ==> members@[j] != members@[k],
            decreases members.len() - i,
        {
            let fresh = seen.insert(members[i]);
            if !fresh {
                return None;
            }
            i += 1;
        }
        Some(EqualGroup { members })
    }

    /// The number of members.
    pub fn len(&self) -> (r: usize)
        ensures
            r == self@.len(),
            self@.no_duplicates(),
    {
        proof {
            use_type_invariant(self);
        }
        self.members.len()
    }

    /// The member at a position of the list.
    pub fn member(&self, index: usize) -> (r: u64)
        requires
            index < self@.len(),
        ensures
            r == self@[index as int],
    {
        self.members[index]
    }
}

/// The members of an organization with the stake that each of them holds,
/// and the total of all stakes.
#[derive(Debug)]
pub struct WeightedGroup {
    total: u64,
    shares: Vec<(u64, u64)>,
}

impl View for WeightedGroup {
    type V = Seq<(u64, u64)>;

    closed spec fn view(&self) -> Seq<(u64, u64)> {
        self.shares@
    }
}

impl WeightedGroup {
    #[verifier::type_invariant]
    spec fn consistent(self) -> bool {
        &&& members_of(self.shares@).no_duplicates()
        &&& stake_sum(self.shares@) == self.total
    }

    /// The group with the given stakes, or `None` if a member occurs twice
    /// or the stakes do not add up to `total`.
    pub fn new(total: u64, shares: Vec<(u64, u64)>) -> (r: Option<WeightedGroup>)
        ensures
            r is Some <==> members_of(shares@).no_duplicates() && stake_sum(shares@) == total,
            r matches Some(group) ==> group@ == shares@,
    {
        broadcast use vstd::std_specs::hash::group_hash_axioms;

        let mut seen: HashSet<u64> = HashSet::new();
        let mut sum: u64 = 0;
        let mut i: usize = 0;
        while i < shares.len()
            invariant
                i <= shares.len(),
                sum == stake_sum(shares@.take(i as int)),
                sum <= total,
                forall|j: int| 0 <= j < i ==> seen@.contains(#[trigger] shares@[j].0),
                forall|member: u64| #[trigger]
                    seen@.contains(member) ==> exists|j: int| 0 <= j < i && shares@[j].0 == member,
                forall|j: int, k: int| 0 <= j < k < i ==> shares@[j].0 != shares@[k].0,
            decreases shares.len() - i,
        {
            let share = shares[i];
            proof {
                assert(shares@.take(i + 1) =~= shares@.take(i as int).push(share));
                lemma_stake_sum_push(shares@.take(i as int), share);
                lemma_stake_sum_take(shares@, i + 1);
            }
            let fresh = seen.insert(share.0);
            if !fresh {
                proof {
                    let j = choose|j: int| 0 <= j < i && shares@[j].0 == share.0;
                    assert(members_of(shares@)[j] == members_of(shares@)[i as int]);
                }
                return None;
            }
            if share.1 > total - sum {
                return None;
            }
            sum += share.1;
            i += 1;
        }
        proof {
            assert(shares@.take(i as int) =~= shares@);
        }
        if sum != total {
            return None;
        }
        proof {
            assert forall|j: int, k: int|
                0 <= j < members_of(shares@).len() && 0 <= k < members_of(shares@).len() && j
                    != k implies members_of(shares@)[j] != members_of(shares@)[k] by {
                if j < k {
                    assert(shares@[j].0 != shares@[k].0);
                } else {
                    assert(shares@[k].0 != shares@[j].0);
                }
            }
        }
        Some(WeightedGroup { total, shares })
    }

    /// The sum of all stakes.
    pub fn total(&self) -> (r: u64)
        ensures
            r == stake_sum(self@),
            valid_shares(self@),
    {
        proof {
            use_type_invariant(self);
        }
        self.total
    }

    /// The number of members.
    pub fn len(&self) -> (r: usize)
        ensures
            r == self@.len(),
    {
        self.shares.len()
    }

    /// The member and stake at a position of the list.
    pub fn share(&self, index: usize) -> (r: (u64, u64))
        requires
            index < self@.len(),
        ensures
            r == self@[index as int],
    {
        self.shares[index]
    }
}

/// The registry's answer to the one question that an organization's minting
/// mode asks of it. `None` says that the registry does not know the
/// organization in that shape, which is not the same as an empty group.
#[derive(Debug)]
pub enum Snapshot {
    Equal(Option<EqualGroup>),
    Weighted(Option<WeightedGroup>),
}

impl Snapshot {
    /// Whether the answer is to the question for equal signal.
    pub open spec fn is_equal(&self) -> bool {
        self is Equal
    }

    /// The signal to mint for each member, where the group is known.
    pub open spec fn shares(&self) -> Option<Seq<(u64, u64)>> {
        match self {
            Snapshot::Equal(Some(group)) => Some(equal_shares(group@)),
            Snapshot::Weighted(Some(group)) => Some(group@),
            _ => None,
        }
    }

    /// The signal that minting would issue in total, where the group is known.
    pub fn total(&self) -> (r: Option<u64>)
        ensures
            match self.shares() {
                Some(shares) => valid_shares(shares) && r == Some(stake_sum(shares) as u64),
                None => r is None,
            },
    {
        match self {
            Snapshot::Equal(Some(group)) => {
                proof {
                    lemma_equal_shares(group@);
                }
                Some(group.len() as u64)
            },
            Snapshot::Weighted(Some(group)) => Some(group.total()),
            _ => None,
        }
    }

    /// The error that stands for a group the registry does not know, by the
    /// question that was asked.
    pub open spec fn unavailable_spec(equal: bool) -> VoteError {
        if equal {
            VoteError::EqualMembershipUnavailable
        } else {
            VoteError::WeightedMembershipUnavailable
        }
    }

    /// The error to return where the group is not known.
    pub fn unavailable(equal: bool) -> (r: VoteError)
        ensures
            r == Snapshot::unavailable_spec(equal),
    {
        if equal {
            VoteError::EqualMembershipUnavailable
        } else {
            VoteError::WeightedMembershipUnavailable
        }
    }
}

/// The registry of members and stakes, as the ledger consults it when a vote
/// is opened.
pub trait StakeSource {
    /// The flat list of an organization's members, if the registry has one.
    fn get_equal_group(&self, organization: u64) -> Option<EqualGroup>;

    /// An organization's members with their stakes, if the registry has them.
    fn get_weighted_group(&self, organization: u64) -> Option<WeightedGroup>;
}

/// Asks the registry the question that goes with the organization's minting
/// mode. Nothing is known of the answer but its kind, and that a group, if
/// one came back, names no member twice and has stakes that add up.
pub fn take_snapshot<S: StakeSource>(source: &S, organization: OrgRep) -> (r: Snapshot)
    ensures
        r.is_equal() == (organization is Equal),
        r.shares() matches Some(shares) ==> valid_shares(shares),
{
    match organization {
        OrgRep::Equal(id) => match source.get_equal_group(id) {
            Some(group) => {
                proof {
                    use_type_invariant(&group);
                    lemma_equal_shares(group@);
                    assert(group@.len() == group.members.len());
                }
                Snapshot::Equal(Some(group))
            },
            None => Snapshot::Equal(None),
        },
        OrgRep::Weighted(id) => match source.get_weighted_group(id) {
            Some(group) => {
                proof {
                    use_type_invariant(&group);
                }
                Snapshot::Weighted(Some(group))
            },
            None => Snapshot::Weighted(None),
        },
    }
}

} // verus!

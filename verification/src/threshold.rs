//! Pass and fail bounds for a vote, absolute or as a fraction of the turnout,
//! and the stored configurations that let a vote be opened by reference.

use crate::permill::{mul_ceil_spec, Permill};
use vstd::prelude::*;

verus! {

/// A bound on the signal in favor, and optionally one on the signal against.
#[derive(Debug, PartialEq, Eq)]
pub struct Threshold<T> {
    pub in_favor: T,
    pub against: Option<T>,
}

impl<T: Copy> Clone for Threshold<T> {
    fn clone(&self) -> (r: Self)
        ensures
            r == *self,
    {
        *self
    }
}

impl<T: Copy> Copy for Threshold<T> {

}

impl<T: Copy> Threshold<T> {
    pub fn new(in_favor: T, against: Option<T>) -> (r: Threshold<T>)
        ensures
            r == (Threshold { in_favor, against }),
    {
        Threshold { in_favor, against }
    }

    /// The bound that the signal in favor must reach for the vote to pass.
    pub fn in_favor(&self) -> (r: T)
        ensures
            r == self.in_favor,
    {
        self.in_favor
    }

    /// The bound, if any, at which the signal against rejects the vote.
    pub fn against(&self) -> (r: Option<T>)
        ensures
            r == self.against,
    {
        self.against
    }
}

/// Whether neither bound asks for more signal than was minted.
pub open spec fn valid_signal_threshold_spec(threshold: Threshold<u64>, turnout: u64) -> bool {
    &&& threshold.in_favor <= turnout
    &&& threshold.against matches Some(bound) ==> bound <= turnout
}

/// Whether neither bound asks for more signal than was minted.
pub fn valid_signal_threshold(threshold: &Threshold<u64>, all_possible_turnout: u64) -> (r: bool)
    ensures
        r == valid_signal_threshold_spec(*threshold, all_possible_turnout),
{
    threshold.in_favor <= all_possible_turnout && match threshold.against {
        Some(bound) => bound <= all_possible_turnout,
        None => true,
    }
}

/// The absolute threshold that a fractional one stands for at a given
/// turnout: each bound is that fraction of the turnout, rounded up.
pub open spec fn from_permill_to_signal_spec(
    threshold: Threshold<Permill>,
    turnout: u64,
) -> Threshold<u64> {
    Threshold {
        in_favor: mul_ceil_spec(threshold.in_favor@, turnout as nat) as u64,
        against: match threshold.against {
            Some(bound) => Some(mul_ceil_spec(bound@, turnout as nat) as u64),
            None => None,
        },
    }
}

/// Resolves a fractional threshold against the minted turnout. Rounding up
/// keeps a fractional remainder from meeting a bound it has not reached.
pub fn from_permill_to_signal(threshold: &Threshold<Permill>, all_possible_turnout: u64) -> (r:
    Threshold<u64>)
    ensures
        r == from_permill_to_signal_spec(*threshold, all_possible_turnout),
        valid_signal_threshold_spec(r, all_possible_turnout),
{
    let in_favor = threshold.in_favor.mul_ceil(all_possible_turnout);
    let against = match threshold.against {
        Some(bound) => Some(bound.mul_ceil(all_possible_turnout)),
        None => None,
    };
    Threshold { in_favor, against }
}

/// A threshold in one of its two forms.
#[derive(Clone, Copy, Debug)]
pub enum XorThreshold {
    /// Bounds in signal.
    Signal(Threshold<u64>),
    /// Bounds as fractions of the turnout.
    Percent(Threshold<Permill>),
}

/// An organization together with the way signal is minted for its members.
#[derive(Clone, Copy, Debug, PartialEq, Eq, Structural)]
pub enum OrgRep {
    /// Every member is minted one unit of signal.
    Equal(u64),
    /// Every member is minted signal equal to their stake.
    Weighted(u64),
}

impl OrgRep {
    /// Whether every member is minted the same signal.
    pub fn is_equal(&self) -> (r: bool)
        ensures
            r == (self is Equal),
    {
        match self {
            OrgRep::Equal(_) => true,
            OrgRep::Weighted(_) => false,
        }
    }

    /// The organization's id.
    pub open spec fn org_spec(self) -> u64 {
        match self {
            OrgRep::Equal(id) => id,
            OrgRep::Weighted(id) => id,
        }
    }

    /// The organization's id.
    #[verifier::when_used_as_spec(org_spec)]
    pub fn org(self) -> (r: u64)
        ensures
            r == self.org_spec(),
    {
        match self {
            OrgRep::Equal(id) => id,
            OrgRep::Weighted(id) => id,
        }
    }
}

/// What is handed in to register a threshold.
#[derive(Clone, Copy, Debug)]
pub struct ThresholdInput {
    pub org: OrgRep,
    pub threshold: XorThreshold,
}

impl ThresholdInput {
    pub fn new(org: OrgRep, threshold: XorThreshold) -> (r: ThresholdInput)
        ensures
            r == (ThresholdInput { org, threshold }),
    {
        ThresholdInput { org, threshold }
    }

    pub fn org(&self) -> (r: OrgRep)
        ensures
            r == self.org,
    {
        self.org
    }

    pub fn threshold(&self) -> (r: XorThreshold)
        ensures
            r == self.threshold,
    {
        self.threshold
    }
}

/// A registered threshold. It is stored under its id and never changes.
#[derive(Clone, Copy, Debug)]
pub struct ThresholdConfig {
    pub id: u64,
    pub org: OrgRep,
    pub threshold: XorThreshold,
}

impl ThresholdConfig {
    pub fn new(id: u64, org: OrgRep, threshold: XorThreshold) -> (r: ThresholdConfig)
        ensures
            r == (ThresholdConfig { id, org, threshold }),
    {
        ThresholdConfig { id, org, threshold }
    }

    pub fn id(&self) -> (r: u64)
        ensures
            r == self.id,
    {
        self.id
    }

    pub fn org(&self) -> (r: OrgRep)
        ensures
            r == self.org,
    {
        self.org
    }

    pub fn threshold(&self) -> (r: XorThreshold)
        ensures
            r == self.threshold,
    {
        self.threshold
    }
}

} // verus!

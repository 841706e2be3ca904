//! Parts per million, and the rounded-up product that turns a fraction of
//! the turnout into an amount of signal.

use vstd::prelude::*;

verus! {

/// The number of parts that make one whole.
pub const PERMILL_ACCURACY: u32 = 1_000_000;

/// The product of `amount` and `parts` millionths, rounded up to a whole number.
pub open spec fn mul_ceil_spec(parts: nat, amount: nat) -> nat {
    (parts * amount + 999_999) / 1_000_000
}

/// A fraction of a whole, in parts per million. It never exceeds one.
#[derive(Clone, Copy, Debug)]
pub struct Permill {
    parts: u32,
}

impl View for Permill {
    type V = nat;

    closed spec fn view(&self) -> nat {
        self.parts as nat
    }
}

/// Calls `sp_arithmetic::Permill::from_parts` and then `mul_ceil` on a `u64`.
///
/// Claimed of them: for `parts` of at most one million the result is the
/// exact product `parts * amount / 1_000_000`, rounded up whenever the
/// division leaves a remainder. The outside code splits `amount` into whole
/// millions and a rest, so that no intermediate value leaves `u64`.
#[verifier::external_body]
fn permill_mul_ceil(parts: u32, amount: u64) -> (r: u64)
    requires
        parts <= 1_000_000,
    ensures
        r == mul_ceil_spec(parts as nat, amount as nat),
{
    sp_arithmetic::Permill::from_parts(parts).mul_ceil(amount)
}

/// A rounded-up fraction of an amount is never more than the amount, and it
/// is zero only if the exact product is zero.
pub proof fn lemma_mul_ceil_bounds(parts: nat, amount: nat)
    requires
        parts <= 1_000_000,
    ensures
        mul_ceil_spec(parts, amount) <= amount,
        mul_ceil_spec(parts, amount) * 1_000_000 >= parts * amount,
        mul_ceil_spec(parts, amount) * 1_000_000 < parts * amount + 1_000_000,
{
    assert(parts * amount <= 1_000_000 * amount) by (nonlinear_arith)
        requires
            parts <= 1_000_000,
    ;
}

impl Permill {
    #[verifier::type_invariant]
    spec fn in_range(self) -> bool {
        self.parts <= 1_000_000
    }

    /// The fraction of `parts` millionths; more than a million parts count as one whole.
    pub fn from_parts(parts: u32) -> (r: Permill)
        ensures
            r@ == if parts <= 1_000_000 { parts as nat } else { 1_000_000nat },
    {
        if parts > PERMILL_ACCURACY {
            Permill { parts: PERMILL_ACCURACY }
        } else {
            Permill { parts }
        }
    }

    /// The fraction of `percent` hundredths; more than a hundred count as one whole.
    pub fn from_percent(percent: u32) -> (r: Permill)
        ensures
            r@ == if percent <= 100 { percent as nat * 10_000 } else { 1_000_000nat },
    {
        if percent > 100 {
            Permill { parts: PERMILL_ACCURACY }
        } else {
            Permill { parts: percent * 10_000 }
        }
    }

    /// The number of millionths.
    pub fn deconstruct(self) -> (r: u32)
        ensures
            r == self@,
            r <= 1_000_000,
    {
        proof {
            use_type_invariant(&self);
        }
        self.parts
    }

    /// This fraction of `amount`, rounded up to a whole number.
    pub fn mul_ceil(self, amount: u64) -> (r: u64)
        ensures
            r == mul_ceil_spec(self@, amount as nat),
            r <= amount,
    {
        proof {
            use_type_invariant(&self);
            lemma_mul_ceil_bounds(self.parts as nat, amount as nat);
        }
        permill_mul_ceil(self.parts, amount)
    }
}

} // verus!

//! Chances expressed as a ratio of two integers.

use vstd::prelude::*;

verus! {

/// A chance of `numerator` in `denominator`.
///
/// Every value of this type is a probability between zero and one: the
/// denominator is positive and the numerator does not exceed it.
#[derive(Clone, Copy, Debug)]
pub struct Probability {
    numerator: u32,
    denominator: u32,
}

impl Probability {
    #[verifier::type_invariant]
    spec fn in_unit_interval(self) -> bool {
        Self::is_ratio(self.numerator, self.denominator)
    }

    /// Whether `numerator` in `denominator` denotes a probability.
    pub open spec fn is_ratio(numerator: u32, denominator: u32) -> bool {
        0 < denominator && numerator <= denominator
    }

    /// The number of favourable cases.
    pub closed spec fn spec_numerator(&self) -> u32 {
        self.numerator
    }

    /// The number of cases.
    pub closed spec fn spec_denominator(&self) -> u32 {
        self.denominator
    }

    /// The event never happens.
    pub open spec fn is_never(&self) -> bool {
        self.spec_numerator() == 0
    }

    /// The event always happens.
    pub open spec fn is_certain(&self) -> bool {
        self.spec_numerator() == self.spec_denominator()
    }

    /// The chance of `numerator` in `denominator`, if that is a probability.
    pub fn new(numerator: u32, denominator: u32) -> (made: Option<Probability>)
        ensures
            made is Some <==> Self::is_ratio(numerator, denominator),
            made matches Some(p) ==> p.spec_numerator() == numerator && p.spec_denominator()
                == denominator,
    {
        if 0 < denominator && numerator <= denominator {
            Some(Probability { numerator, denominator })
        } else {
            None
        }
    }

    /// The chance of an event that never happens: zero in one.
    pub fn never() -> (made: Probability)
        ensures
            made.spec_numerator() == 0,
            made.spec_denominator() == 1,
    {
        Probability { numerator: 0, denominator: 1 }
    }

    /// The chance of an event that always happens: one in one.
    pub fn always() -> (made: Probability)
        ensures
            made.spec_numerator() == 1,
            made.spec_denominator() == 1,
    {
        Probability { numerator: 1, denominator: 1 }
    }

    /// The number of favourable cases.
    #[verifier::when_used_as_spec(spec_numerator)]
    pub fn numerator(&self) -> (n: u32)
        ensures
            n == self.spec_numerator(),
            n <= self.spec_denominator(),
    {
        proof {
            use_type_invariant(self);
        }
        self.numerator
    }

    /// The number of cases, which is never zero.
    #[verifier::when_used_as_spec(spec_denominator)]
    pub fn denominator(&self) -> (d: u32)
        ensures
            d == self.spec_denominator(),
            d > 0,
            self.spec_numerator() <= d,
    {
        proof {
            use_type_invariant(self);
        }
        self.denominator
    }
}

} // verus!

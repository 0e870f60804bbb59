//! The unit in which the frecency score is counted.

use vstd::prelude::*;

verus! {

/// A weight, or a sum of weights.
#[derive(Debug, Clone, PartialEq, Eq, PartialOrd, Ord, Copy)]
pub struct FrecencyWeight(i64);

impl View for FrecencyWeight {
    type V = int;

    closed spec fn view(&self) -> int {
        self.0 as int
    }
}

impl From<i64> for FrecencyWeight {
    fn from(value: i64) -> (w: Self)
        ensures
            w@ == value,
    {
        Self(value)
    }
}

impl vstd::std_specs::convert::FromSpecImpl<i64> for FrecencyWeight {
    open spec fn obeys_from_spec() -> bool {
        true
    }

    closed spec fn from_spec(value: i64) -> Self {
        Self(value)
    }
}

impl FrecencyWeight {
    /// The weight as a number.
    pub fn value(self) -> (v: i64)
        ensures
            v == self@,
    {
        self.0
    }

    /// Whether the sum of the two is a weight.
    pub open spec fn spec_can_add(self, rhs: Self) -> bool {
        i64::MIN <= self@ + rhs@ <= i64::MAX
    }

    /// Whether the sum of the two is a weight.
    pub fn can_add(self, rhs: Self) -> (b: bool)
        ensures
            b == self.spec_can_add(rhs),
    {
        self.0.checked_add(rhs.0).is_some()
    }
}

impl core::ops::Add for FrecencyWeight {
    type Output = Self;

    fn add(self, rhs: Self) -> (sum: Self)
        ensures
            sum@ == self@ + rhs@,
    {
        Self(self.0 + rhs.0)
    }
}

impl vstd::std_specs::ops::AddSpecImpl for FrecencyWeight {
    open spec fn obeys_add_spec() -> bool {
        true
    }

    open spec fn add_req(self, rhs: Self) -> bool {
        self.spec_can_add(rhs)
    }

    closed spec fn add_spec(self, rhs: Self) -> Self {
        Self((self.0 + rhs.0) as i64)
    }
}

} // verus!

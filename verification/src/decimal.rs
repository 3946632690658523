//! Exact decimal scalars.
//!
//! Scene descriptions are written with decimal literals. They are kept as integer
//! counts of ten-thousandths, so that a description is the same on every machine
//! and can be compared exactly.

use vstd::prelude::*;

verus! {

/// Units per whole: a `Decimal` counts ten-thousandths.
pub const SCALE: i64 = 10_000;

/// A decimal number with four fractional digits, held as `units / 10_000`.
#[derive(Clone, Copy, Debug, PartialEq, Eq, Structural)]
pub struct Decimal {
    pub units: i64,
}

impl Decimal {
    /// The number of ten-thousandths that this value stands for.
    pub open spec fn view(self) -> int {
        self.units as int
    }

    /// The value `units / 10_000`: `from_units(7_300)` is 0.73.
    pub fn from_units(units: i64) -> (d: Decimal)
        ensures
            d@ == units,
    {
        Decimal { units }
    }

    /// The whole number `n`.
    pub fn from_int(n: i32) -> (d: Decimal)
        ensures
            d@ == n * SCALE,
    {
        Decimal { units: (n as i64) * SCALE }
    }

    /// Zero.
    pub fn zero() -> (d: Decimal)
        ensures
            d@ == 0,
    {
        Decimal { units: 0 }
    }

    /// Whether the value is at most zero.
    pub fn is_non_positive(self) -> (b: bool)
        ensures
            b == (self@ <= 0),
    {
        self.units <= 0
    }

    /// The smaller of two values.
    pub fn min(self, other: Decimal) -> (d: Decimal)
        ensures
            d@ == if self@ <= other@ { self@ } else { other@ },
    {
        if self.units <= other.units {
            self
        } else {
            other
        }
    }

    /// The larger of two values.
    pub fn max(self, other: Decimal) -> (d: Decimal)
        ensures
            d@ == if self@ >= other@ { self@ } else { other@ },
    {
        if self.units >= other.units {
            self
        } else {
            other
        }
    }

    /// The difference `self - other`, where it can be represented.
    pub fn minus(self, other: Decimal) -> (d: Decimal)
        requires
            i64::MIN <= self@ - other@ <= i64::MAX,
        ensures
            d@ == self@ - other@,
    {
        Decimal { units: self.units - other.units }
    }

    /// The negation `-self`, where it can be represented.
    pub fn negated(self) -> (d: Decimal)
        requires
            self@ > i64::MIN,
        ensures
            d@ == -self@,
    {
        Decimal { units: -self.units }
    }
}

} // verus!

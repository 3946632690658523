//! Exact triples: the points, edges, offsets and colours of a scene description.

use crate::decimal::Decimal;
use crate::decimal::SCALE;
use vstd::prelude::*;

verus! {

/// Three exact decimals, read as a point, a direction or an RGB colour.
#[derive(Clone, Copy, Debug, PartialEq, Eq, Structural)]
pub struct Triple {
    pub x: Decimal,
    pub y: Decimal,
    pub z: Decimal,
}

impl Triple {
    /// The triple with the given components.
    pub fn new(x: Decimal, y: Decimal, z: Decimal) -> (t: Triple)
        ensures
            t == (Triple { x, y, z }),
    {
        Triple { x, y, z }
    }

    /// The triple of three whole numbers.
    pub fn ints(x: i32, y: i32, z: i32) -> (t: Triple)
        ensures
            t.x@ == x * SCALE,
            t.y@ == y * SCALE,
            t.z@ == z * SCALE,
    {
        Triple { x: Decimal::from_int(x), y: Decimal::from_int(y), z: Decimal::from_int(z) }
    }

    /// The triple `(x, y, z) / 10_000`: `units(6_500, 500, 500)` is (0.65, 0.05, 0.05).
    pub fn units(x: i64, y: i64, z: i64) -> (t: Triple)
        ensures
            t.x@ == x,
            t.y@ == y,
            t.z@ == z,
    {
        Triple { x: Decimal::from_units(x), y: Decimal::from_units(y), z: Decimal::from_units(z) }
    }

    /// Whether each component can be negated without leaving `i64`.
    pub open spec fn negatable(self) -> bool {
        self.x@ > i64::MIN && self.y@ > i64::MIN && self.z@ > i64::MIN
    }

    /// The triple with every component negated.
    pub fn negated(self) -> (t: Triple)
        requires
            self.negatable(),
        ensures
            t.x@ == -self.x@,
            t.y@ == -self.y@,
            t.z@ == -self.z@,
    {
        Triple { x: self.x.negated(), y: self.y.negated(), z: self.z.negated() }
    }
}

} // verus!

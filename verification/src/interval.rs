//! Distances along a ray, and the decisions that intersection tests make on them.
//!
//! A distance is compared through an integer key. Keys grow with the distance
//! and the key of the distance zero is zero; a distance that is not a number
//! has no key and compares as neither less, equal nor greater. A surface
//! reports a hit only strictly inside the interval in which it is looked for.

use vstd::prelude::*;

verus! {

/// A distance along a ray, as far as it can be ordered.
#[derive(Clone, Copy, Debug, PartialEq, Eq, Structural)]
pub enum Distance {
    /// Not a number.
    Unordered,
    /// The distance with this key.
    At(i64),
}

/// The distances from `min` to `max` in which a hit is looked for.
#[derive(Clone, Copy, Debug, PartialEq, Eq, Structural)]
pub struct Interval {
    pub min: Distance,
    pub max: Distance,
}

/// One of the two roots of a quadratic, the smaller first.
#[derive(Clone, Copy, Debug, PartialEq, Eq, Structural)]
pub enum Root {
    First,
    Second,
}

/// The stretch of a ray inside a medium, from `entry` to `exit`.
#[derive(Clone, Copy, Debug, PartialEq, Eq, Structural)]
pub struct Span {
    pub entry: Distance,
    pub exit: Distance,
}

/// `a < b`: both are ordered and the key of `a` is the smaller.
pub open spec fn less(a: Distance, b: Distance) -> bool {
    match (a, b) {
        (Distance::At(x), Distance::At(y)) => x < y,
        _ => false,
    }
}

/// `a <= b`: both are ordered and the key of `a` is not the larger.
pub open spec fn at_most(a: Distance, b: Distance) -> bool {
    match (a, b) {
        (Distance::At(x), Distance::At(y)) => x <= y,
        _ => false,
    }
}

/// Whether `t` lies strictly inside the interval: beyond `min` and before `max`.
pub open spec fn strictly_within(t: Distance, within: Interval) -> bool {
    less(within.min, t) && less(t, within.max)
}

/// The root that a sphere reports: the first if it lies strictly inside the
/// interval, else the second if that does, else none.
pub open spec fn root_taken(first: Distance, second: Distance, within: Interval) -> Option<Root> {
    if strictly_within(first, within) {
        Some(Root::First)
    } else if strictly_within(second, within) {
        Some(Root::Second)
    } else {
        None
    }
}

/// The entry into a medium, not before `min`.
pub open spec fn entry_clamped(entry: Distance, min: Distance) -> Distance {
    if less(entry, min) {
        min
    } else {
        entry
    }
}

/// The exit from a medium, not after `max`.
pub open spec fn exit_clamped(exit: Distance, max: Distance) -> Distance {
    if less(max, exit) {
        max
    } else {
        exit
    }
}

/// The stretch of a ray inside a medium that counts: entry and exit are brought
/// into the interval, a stretch that is empty by then is none, and an entry
/// behind the ray's origin is moved to the origin.
pub open spec fn span_taken(entry: Distance, exit: Distance, within: Interval) -> Option<Span> {
    let e = entry_clamped(entry, within.min);
    let x = exit_clamped(exit, within.max);
    if at_most(x, e) {
        None
    } else if less(e, Distance::At(0)) {
        Some(Span { entry: Distance::At(0), exit: x })
    } else {
        Some(Span { entry: e, exit: x })
    }
}

/// The bit that holds the sign in the bit pattern of a distance.
pub const SIGN_BIT: u64 = 0x8000_0000_0000_0000;

/// The key of the distance with the given bit pattern. A pattern without the
/// sign bit is its own key, so that zero has the key zero; a pattern with the
/// sign bit stands for a distance behind the origin, and the larger its
/// magnitude the smaller its key.
pub open spec fn key_of(bits: u64) -> int {
    if bits < SIGN_BIT {
        bits as int
    } else {
        -((bits - SIGN_BIT) as int) - 1
    }
}

/// The bit pattern of the distance with the given key.
pub open spec fn bits_of(key: i64) -> int {
    if key >= 0 {
        key as int
    } else {
        SIGN_BIT + (-(key as int) - 1)
    }
}

/// The key of the distance with the given bit pattern.
pub fn key_of_bits(bits: u64) -> (k: i64)
    ensures
        k == key_of(bits),
        bits < 0x8000_0000_0000_0000 ==> k == bits,
        bits >= 0x8000_0000_0000_0000 ==> k == -((bits - 0x8000_0000_0000_0000) as int) - 1,
{
    if bits < SIGN_BIT {
        bits as i64
    } else {
        -((bits - SIGN_BIT) as i64) - 1
    }
}

/// The bit pattern of the distance with the given key.
pub fn bits_of_key(k: i64) -> (bits: u64)
    ensures
        bits == bits_of(k),
        k >= 0 ==> bits == k,
        k < 0 ==> bits == 0x8000_0000_0000_0000 + (-(k as int) - 1),
{
    if k >= 0 {
        k as u64
    } else {
        SIGN_BIT + ((-(k + 1)) as u64)
    }
}

/// A key and its bit pattern stand for each other.
pub proof fn lemma_key_round_trip(bits: u64, key: i64)
    ensures
        i64::MIN <= key_of(bits) <= i64::MAX,
        0 <= bits_of(key) <= u64::MAX,
        bits_of(key_of(bits) as i64) == bits,
        key_of(bits_of(key) as u64) == key,
{
}

/// Keys grow with the distance: among patterns ahead of the origin with the
/// pattern, among patterns behind it against the pattern, and every pattern
/// behind the origin has a smaller key than every pattern ahead of it.
pub proof fn lemma_keys_grow(a: u64, b: u64)
    ensures
        a < SIGN_BIT && b < SIGN_BIT ==> (key_of(a) < key_of(b) <==> a < b),
        a >= SIGN_BIT && b >= SIGN_BIT ==> (key_of(a) < key_of(b) <==> a > b),
        a >= SIGN_BIT && b < SIGN_BIT ==> key_of(a) < key_of(b),
        key_of(0) == 0,
{
}

impl Distance {
    /// Whether `self < other`.
    pub fn is_less(self, other: Distance) -> (b: bool)
        ensures
            b == less(self, other),
    {
        match (self, other) {
            (Distance::At(x), Distance::At(y)) => x < y,
            _ => false,
        }
    }

    /// Whether `self <= other`.
    pub fn is_at_most(self, other: Distance) -> (b: bool)
        ensures
            b == at_most(self, other),
    {
        match (self, other) {
            (Distance::At(x), Distance::At(y)) => x <= y,
            _ => false,
        }
    }
}

impl Interval {
    /// Whether `t` lies strictly inside the interval; neither end does.
    pub open spec fn spec_contains(self, t: Distance) -> bool {
        strictly_within(t, self)
    }

    /// Whether a surface reports a hit at `t`: where `t` lies strictly inside
    /// the interval.
    pub fn contains(&self, t: Distance) -> (b: bool)
        ensures
            b == self.spec_contains(t),
    {
        self.min.is_less(t) && t.is_less(self.max)
    }

    /// Whether `t` lies before or beyond the interval.
    pub open spec fn spec_excludes(self, t: Distance) -> bool {
        less(t, self.min) || less(self.max, t)
    }

    /// Whether a coordinate `t` of a point in the plane of a patch puts the
    /// point off the patch: where `t` lies before or beyond the interval from
    /// zero to one. A coordinate that is not a number does not.
    pub fn excludes(&self, t: Distance) -> (b: bool)
        ensures
            b == self.spec_excludes(t),
    {
        t.is_less(self.min) || self.max.is_less(t)
    }

    /// The root of its quadratic that a sphere reports: the first root if it
    /// lies strictly inside the interval, else the second if that does.
    pub fn choose_root(&self, first: Distance, second: Distance) -> (root: Option<Root>)
        ensures
            root == root_taken(first, second, *self),
    {
        if self.contains(first) {
            Some(Root::First)
        } else if self.contains(second) {
            Some(Root::Second)
        } else {
            None
        }
    }

    /// The stretch inside a medium that counts, given where the ray enters and
    /// leaves the boundary.
    pub fn clamp_span(&self, entry: Distance, exit: Distance) -> (span: Option<Span>)
        ensures
            span == span_taken(entry, exit, *self),
    {
        let e = if entry.is_less(self.min) {
            self.min
        } else {
            entry
        };
        let x = if self.max.is_less(exit) {
            self.max
        } else {
            exit
        };
        if x.is_at_most(e) {
            None
        } else if e.is_less(Distance::At(0)) {
            Some(Span { entry: Distance::At(0), exit: x })
        } else {
            Some(Span { entry: e, exit: x })
        }
    }
}

/// An ordered distance that lies strictly inside an interval is not excluded
/// by it, and one that is neither inside nor excluded lies on one of its ends.
pub proof fn lemma_contained_or_excluded(t: i64, min: i64, max: i64)
    ensures
        ({
            let within = Interval { min: Distance::At(min), max: Distance::At(max) };
            &&& within.spec_contains(Distance::At(t)) ==> !within.spec_excludes(Distance::At(t))
            &&& !within.spec_contains(Distance::At(t)) && !within.spec_excludes(Distance::At(t))
                ==> t == min || t == max
        }),
{
}

/// The root that a sphere reports lies strictly inside the interval, and it is
/// the nearest root that does: the second root is reported only where the
/// first lies at or before `min`.
pub proof fn lemma_root_in_interval(first: i64, second: i64, min: i64, max: i64)
    requires
        first <= second,
    ensures
        match root_taken(
            Distance::At(first),
            Distance::At(second),
            Interval { min: Distance::At(min), max: Distance::At(max) },
        ) {
            Some(Root::First) => min < first < max,
            Some(Root::Second) => first <= min < second < max,
            None => !(min < first < max) && !(min < second < max),
        },
{
}

/// A surface reports no hit on an end of the interval.
pub proof fn lemma_ends_are_misses(first: Distance, second: Distance, within: Interval)
    ensures
        !within.spec_contains(within.min),
        !within.spec_contains(within.max),
        first == within.max || first == within.min ==> root_taken(first, second, within)
            != Some(Root::First),
        second == within.max || second == within.min ==> root_taken(first, second, within)
            != Some(Root::Second),
{
}

/// From inside a sphere, where one root lies behind the ray and the other
/// ahead, the sphere reports the root ahead.
pub proof fn lemma_inside_takes_root_ahead(first: i64, second: i64, min: i64, max: i64)
    requires
        first <= min,
        min < second < max,
    ensures
        root_taken(
            Distance::At(first),
            Distance::At(second),
            Interval { min: Distance::At(min), max: Distance::At(max) },
        ) == Some(Root::Second),
{
}

/// The stretch inside a medium that counts starts at or ahead of the ray's
/// origin and ends inside the interval, wherever entry and exit did. It is not
/// empty unless the medium lies behind the origin, and never empty where the
/// interval starts at or ahead of the origin.
pub proof fn lemma_span_in_interval(entry: i64, exit: i64, min: i64, max: i64)
    ensures
        match span_taken(
            Distance::At(entry),
            Distance::At(exit),
            Interval { min: Distance::At(min), max: Distance::At(max) },
        ) {
            Some(span) => {
                &&& less(span.entry, span.exit) || at_most(span.exit, Distance::At(0))
                &&& min >= 0 ==> less(span.entry, span.exit)
                &&& at_most(Distance::At(0), span.entry)
                &&& at_most(span.exit, Distance::At(max))
                &&& at_most(Distance::At(min), span.entry) || span.entry == Distance::At(0)
                &&& at_most(span.exit, Distance::At(exit))
            },
            None => true,
        },
{
}

} // verus!

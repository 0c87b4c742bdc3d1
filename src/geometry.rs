use vstd::prelude::*;
use crate::constants::{WORLD_LIMIT, MAX_SPRITE_SIZE};

verus! {

/// A point or a displacement, in sub-pixel units.
#[derive(Clone, Copy, Debug, PartialEq, Eq, Structural)]
pub struct Vec2 {
    pub x: i64,
    pub y: i64,
}

/// An axis-aligned rectangle: top-left corner and size, in sub-pixel units.
#[derive(Clone, Copy, Debug, PartialEq, Eq, Structural)]
pub struct Rect {
    pub x: i64,
    pub y: i64,
    pub w: i64,
    pub h: i64,
}

pub open spec fn in_world(v: i64) -> bool {
    -WORLD_LIMIT <= v <= WORLD_LIMIT
}

pub open spec fn sprite_size_ok(s: i64) -> bool {
    0 <= s <= MAX_SPRITE_SIZE
}

/// Two rectangles share an area of non-zero size; touching edges do not count.
pub open spec fn rects_overlap(a: Rect, b: Rect) -> bool {
    &&& a.x < b.x + b.w
    &&& b.x < a.x + a.w
    &&& a.y < b.y + b.h
    &&& b.y < a.y + a.h
}

pub open spec fn clamp_spec(v: int, lo: int, hi: int) -> int {
    if v < lo {
        lo
    } else if v > hi {
        hi
    } else {
        v
    }
}

impl Vec2 {
    pub open spec fn wf(self) -> bool {
        in_world(self.x) && in_world(self.y)
    }
}

impl Rect {
    /// A rectangle whose corner lies within twice the world limit and whose
    /// sides are sprite-sized.
    pub open spec fn wf(self) -> bool {
        &&& -2 * WORLD_LIMIT <= self.x <= 2 * WORLD_LIMIT
        &&& -2 * WORLD_LIMIT <= self.y <= 2 * WORLD_LIMIT
        &&& sprite_size_ok(self.w)
        &&& sprite_size_ok(self.h)
    }

    pub fn overlaps(&self, other: &Rect) -> (r: bool)
        requires
            self.wf(),
            other.wf(),
        ensures
            r == rects_overlap(*self, *other),
    {
        self.x < other.x + other.w && other.x < self.x + self.w && self.y < other.y + other.h
            && other.y < self.y + self.h
    }
}

/// Brings `v` into `[lo, hi]`.
pub fn clamp(v: i64, lo: i64, hi: i64) -> (r: i64)
    requires
        lo <= hi,
    ensures
        r == clamp_spec(v as int, lo as int, hi as int),
{
    if v < lo {
        lo
    } else if v > hi {
        hi
    } else {
        v
    }
}

/// Holds a coordinate within the world limit.
pub fn keep_in_world(v: i64) -> (r: i64)
    ensures
        r == clamp_spec(v as int, -WORLD_LIMIT, WORLD_LIMIT as int),
        in_world(r),
{
    clamp(v, -WORLD_LIMIT, WORLD_LIMIT)
}

/// A clock advanced by `dt`, stopping at the largest value.
pub open spec fn sat_time(t: int, dt: int) -> int {
    if t + dt > i64::MAX { i64::MAX as int } else { t + dt }
}

/// Adds a non-negative duration to a clock, stopping at the largest value.
pub fn add_time(t: i64, dt: i64) -> (r: i64)
    requires
        dt >= 0,
    ensures
        r == sat_time(t as int, dt as int),
{
    if t > i64::MAX - dt {
        i64::MAX
    } else {
        t + dt
    }
}

/// Sum of a sequence of tick lengths.
pub open spec fn ticks_total(dts: Seq<int>) -> int
    decreases dts.len(),
{
    if dts.len() == 0 {
        0
    } else {
        dts[0] + ticks_total(dts.drop_first())
    }
}

/// A sum of non-negative tick lengths is non-negative.
pub proof fn lemma_ticks_total_nonneg(dts: Seq<int>)
    requires
        forall|i: int| 0 <= i < dts.len() ==> dts[i] >= 0,
    ensures
        ticks_total(dts) >= 0,
    decreases dts.len(),
{
    if dts.len() > 0 {
        let rest = dts.drop_first();
        assert forall|i: int| 0 <= i < rest.len() implies rest[i] >= 0 by {
            assert(rest[i] == dts[i + 1]);
        }
        lemma_ticks_total_nonneg(rest);
    }
}

} // verus!

//! Vectors and axis-aligned bounding boxes.
use vstd::prelude::*;

verus! {

/// Whether an integer can be stored in an `i64`.
pub open spec fn fits_i64(v: int) -> bool {
    i64::MIN <= v <= i64::MAX
}

pub open spec fn abs(v: int) -> int {
    if v < 0 {
        -v
    } else {
        v
    }
}

/// A machine integer times a tick length stays far inside `i128`.
pub(crate) proof fn lemma_scaled_bound(a: int, t: int)
    requires
        -0x8000_0000_0000_0000 <= a <= 0x8000_0000_0000_0000,
        0 <= t <= 0xffff_ffff,
    ensures
        -0x8000_0000_0000_0000_0000_0000 <= a * t <= 0x8000_0000_0000_0000_0000_0000,
{
    assert(-0x8000_0000_0000_0000 * 0xffff_ffff <= a * t <= 0x8000_0000_0000_0000 * 0xffff_ffff)
        by (nonlinear_arith)
        requires
            -0x8000_0000_0000_0000 <= a <= 0x8000_0000_0000_0000,
            0 <= t <= 0xffff_ffff,
    ;
}

/// A direction in {-1, 0, 1} times a machine integer stays within one more
/// than the machine range.
pub(crate) proof fn lemma_direction_bound(dir: int, v: int)
    requires
        -1 <= dir <= 1,
        i64::MIN <= v <= i64::MAX,
    ensures
        -0x8000_0000_0000_0000 <= dir * v <= 0x8000_0000_0000_0000,
{
    assert(-0x8000_0000_0000_0000 <= dir * v <= 0x8000_0000_0000_0000) by (nonlinear_arith)
        requires
            -1 <= dir <= 1,
            i64::MIN <= v <= i64::MAX,
    ;
}

/// A pair of integer coordinates: a position, a velocity or a half-extent.
#[derive(Clone, Copy, Debug, PartialEq, Eq, Structural)]
pub struct Vector2 {
    pub x: i64,
    pub y: i64,
}

impl Vector2 {
    pub fn new(x: i64, y: i64) -> (r: Vector2)
        ensures
            r.x == x,
            r.y == y,
    {
        Vector2 { x, y }
    }

    pub fn zero() -> (r: Vector2)
        ensures
            r.x == 0,
            r.y == 0,
    {
        Vector2 { x: 0, y: 0 }
    }
}

/// An axis-aligned box given by its center and its half-extent on each axis.
#[derive(Clone, Copy, Debug, PartialEq, Eq, Structural)]
pub struct Aabb {
    pub center: Vector2,
    pub half_extent: Vector2,
}

/// Two intervals on one axis, given by centers and half-lengths, share a point.
pub open spec fn overlaps_on_axis(c1: int, h1: int, c2: int, h2: int) -> bool {
    abs(c1 - c2) <= h1 + h2
}

/// Two boxes overlap: their projections overlap on both axes. Boxes that only
/// touch at an edge overlap.
pub open spec fn overlaps(a: Aabb, b: Aabb) -> bool {
    &&& overlaps_on_axis(
        a.center.x as int,
        a.half_extent.x as int,
        b.center.x as int,
        b.half_extent.x as int,
    )
    &&& overlaps_on_axis(
        a.center.y as int,
        a.half_extent.y as int,
        b.center.y as int,
        b.half_extent.y as int,
    )
}

fn axis_overlap(c1: i64, h1: i64, c2: i64, h2: i64) -> (r: bool)
    ensures
        r == overlaps_on_axis(c1 as int, h1 as int, c2 as int, h2 as int),
{
    let d: i128 = c1 as i128 - c2 as i128;
    let dist: i128 = if d < 0 {
        -d
    } else {
        d
    };
    dist <= h1 as i128 + h2 as i128
}

impl Aabb {
    pub fn new(center: Vector2, half_extent: Vector2) -> (r: Aabb)
        ensures
            r.center == center,
            r.half_extent == half_extent,
    {
        Aabb { center, half_extent }
    }

    /// Whether this box and `other` overlap.
    pub fn intersects(&self, other: &Aabb) -> (r: bool)
        ensures
            r == overlaps(*self, *other),
    {
        axis_overlap(self.center.x, self.half_extent.x, other.center.x, other.half_extent.x)
            && axis_overlap(
            self.center.y,
            self.half_extent.y,
            other.center.y,
            other.half_extent.y,
        )
    }
}

} // verus!

//! Axis-aligned rectangles in millipixel coordinates, with the strict
//! overlap test used for collision detection and the point-containment
//! test used for the intro start button.

use vstd::prelude::*;

verus! {

/// Largest magnitude any rectangle coordinate or extent may have, in
/// millipixels. Keeps every sum of two rectangle fields well inside
/// `i64` range.
pub const COORD_LIMIT: i64 = 0x4_0000_0000_0000;

/// An axis-aligned rectangle: top-left corner `(x, y)`, width `w`,
/// height `h`, all in millipixels. `y` grows downward.
#[derive(Clone, Copy, Debug, PartialEq, Eq, Structural)]
pub struct Rect {
    pub x: i64,
    pub y: i64,
    pub w: i64,
    pub h: i64,
}

/// Two half-open intervals `[a_lo, a_lo + a_len)` and
/// `[b_lo, b_lo + b_len)` intersect with nonzero extent.
pub open spec fn intervals_overlap(a_lo: int, a_len: int, b_lo: int, b_len: int) -> bool {
    a_lo < b_lo + b_len && b_lo < a_lo + a_len
}

/// Rectangles overlap exactly when their projections on both axes
/// intersect with nonzero extent; rectangles that merely touch along an
/// edge do not overlap.
pub open spec fn spec_overlaps(a: Rect, b: Rect) -> bool {
    intervals_overlap(a.x as int, a.w as int, b.x as int, b.w as int)
        && intervals_overlap(a.y as int, a.h as int, b.y as int, b.h as int)
}

/// The point `(px, py)` lies inside the rectangle; all four edges count
/// as inside.
pub open spec fn spec_contains(r: Rect, px: int, py: int) -> bool {
    r.x <= px <= r.x + r.w && r.y <= py <= r.y + r.h
}

impl Rect {
    /// Every field is small enough that any sum of two fields fits `i64`.
    pub open spec fn bounded(self) -> bool {
        &&& -COORD_LIMIT <= self.x <= COORD_LIMIT
        &&& -COORD_LIMIT <= self.y <= COORD_LIMIT
        &&& 0 <= self.w <= COORD_LIMIT
        &&& 0 <= self.h <= COORD_LIMIT
    }

    pub fn new(x: i64, y: i64, w: i64, h: i64) -> (r: Rect)
        ensures
            r == (Rect { x, y, w, h }),
    {
        Rect { x, y, w, h }
    }

    /// The strict axis-aligned overlap test.
    pub fn overlaps(&self, other: &Rect) -> (r: bool)
        requires
            self.bounded(),
            other.bounded(),
        ensures
            r == spec_overlaps(*self, *other),
    {
        self.x < other.x + other.w && other.x < self.x + self.w && self.y < other.y + other.h
            && other.y < self.y + self.h
    }

    /// Point-containment test, inclusive of all four edges.
    pub fn contains(&self, px: i64, py: i64) -> (r: bool)
        requires
            self.bounded(),
        ensures
            r == spec_contains(*self, px as int, py as int),
    {
        self.x <= px && px <= self.x + self.w && self.y <= py && py <= self.y + self.h
    }
}

/// Law: the overlap test is exactly the conjunction of the two axis
/// projections intersecting with nonzero extent. Rectangles whose
/// projections are disjoint on either axis never overlap, and rectangles
/// with positive overlap on both axes always do; projections that merely
/// touch (shared edge) do not count as overlap.
pub proof fn lemma_overlap_characterization(a: Rect, b: Rect)
    ensures
        spec_overlaps(a, b) <==> (intervals_overlap(a.x as int, a.w as int, b.x as int, b.w as int)
            && intervals_overlap(a.y as int, a.h as int, b.y as int, b.h as int)),
        !intervals_overlap(a.x as int, a.w as int, b.x as int, b.w as int) ==> !spec_overlaps(
            a,
            b,
        ),
        !intervals_overlap(a.y as int, a.h as int, b.y as int, b.h as int) ==> !spec_overlaps(
            a,
            b,
        ),
        a.x + a.w == b.x || b.x + b.w == a.x || a.y + a.h == b.y || b.y + b.h == a.y
            ==> !spec_overlaps(a, b),
{
}

} // verus!

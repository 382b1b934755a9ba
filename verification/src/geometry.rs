//! Axis-aligned rectangles and the overlap test used for collisions.

use vstd::prelude::*;

verus! {

/// True when `v` can be held in an `i16`.
pub open spec fn fits_i16(v: int) -> bool {
    i16::MIN <= v <= i16::MAX
}

/// An axis-aligned rectangle: top-left corner `(x1, y1)`, bottom-right corner
/// `(x2, y2)`. Coordinates are wide enough to hold any sprite placed at any
/// 16-bit position.
#[derive(Clone, Copy, Debug, PartialEq, Eq)]
pub struct Rect {
    pub x1: i32,
    pub y1: i32,
    pub x2: i32,
    pub y2: i32,
}

/// Two rectangles overlap when their projections on both axes intersect;
/// touching edges count as overlap.
pub open spec fn rects_overlap(a: Rect, b: Rect) -> bool {
    !(a.x2 < b.x1 || b.x2 < a.x1 || a.y2 < b.y1 || b.y2 < a.y1)
}

impl Rect {
    /// The rectangle covered by a sprite of `width` by `height` pixels whose
    /// top-left corner is at `(x, y)`.
    pub open spec fn spanning(x: int, y: int, width: int, height: int) -> Rect {
        Rect { x1: x as i32, y1: y as i32, x2: (x + width) as i32, y2: (y + height) as i32 }
    }

    /// Builds the rectangle of a sprite from its position and size.
    pub fn of(x: i16, y: i16, width: u8, height: u8) -> (r: Rect)
        ensures
            r == Rect::spanning(x as int, y as int, width as int, height as int),
            r.x1 == x,
            r.y1 == y,
            r.x2 == x + width,
            r.y2 == y + height,
    {
        Rect { x1: x as i32, y1: y as i32, x2: x as i32 + width as i32, y2: y as i32 + height as i32 }
    }
}

/// Tests two rectangles for overlap.
pub fn overlaps(a: &Rect, b: &Rect) -> (hit: bool)
    ensures
        hit == rects_overlap(*a, *b),
{
    !(a.x2 < b.x1 || b.x2 < a.x1 || a.y2 < b.y1 || b.y2 < a.y1)
}

/// Overlap does not depend on the order of its arguments.
pub proof fn lemma_overlap_symmetric(a: Rect, b: Rect)
    ensures
        rects_overlap(a, b) == rects_overlap(b, a),
{
}

} // verus!

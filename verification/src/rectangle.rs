use vstd::prelude::*;

use vstd::math::{max, min};

verus! {

/// An axis-aligned box in integer pixel coordinates: the position of its
/// lower corner plus its width and height. The core uses rectangles for
/// atlas sub-regions — the source rectangle of a draw request that selects
/// one frame of a sprite sheet — so coordinates are texels of the sprite's
/// original image.
#[derive(Clone, Copy, Debug, PartialEq, Eq, Structural)]
pub struct Rectangle {
    pub x: u32,
    pub y: u32,
    pub width: u32,
    pub height: u32,
}

impl Rectangle {
    pub fn new(x: u32, y: u32, width: u32, height: u32) -> (r: Rectangle)
        ensures
            r == (Rectangle { x, y, width, height }),
    {
        Rectangle { x, y, width, height }
    }

    pub fn size(&self) -> (s: (u32, u32))
        ensures
            s == (self.width, self.height),
    {
        (self.width, self.height)
    }

    /// The coordinate of the far edge along the y axis.
    pub open spec fn top_spec(self) -> int {
        self.y + self.height
    }

    pub fn top(&self) -> (t: u64)
        ensures
            t == self.top_spec(),
    {
        self.y as u64 + self.height as u64
    }

    /// The coordinate of the far edge along the x axis.
    pub open spec fn right_spec(self) -> int {
        self.x + self.width
    }

    pub fn right(&self) -> (r: u64)
        ensures
            r == self.right_spec(),
    {
        self.x as u64 + self.width as u64
    }

    /// Open-interval overlap of the two boxes: each one's near edge lies
    /// strictly before the other's far edge on both axes. Rectangles that
    /// merely touch along an edge or at a corner do not intersect.
    pub open spec fn intersects_spec(self, rhs: Rectangle) -> bool {
        &&& rhs.x < self.right_spec()
        &&& self.x < rhs.right_spec()
        &&& rhs.y < self.top_spec()
        &&& self.y < rhs.top_spec()
    }

    pub fn intersects(&self, rhs: &Rectangle) -> (r: bool)
        ensures
            r == self.intersects_spec(*rhs),
    {
        (rhs.x as u64) < self.right()
            && (self.x as u64) < rhs.right()
            && (rhs.y as u64) < self.top()
            && (self.y as u64) < rhs.top()
    }
}

/// Rectangles that share an edge — one's far edge coincides with the other's
/// near edge on some axis — never intersect, whatever their extent on the
/// other axis: the overlap test is strict.
pub proof fn lemma_touching_rectangles_do_not_intersect(a: Rectangle, b: Rectangle)
    requires
        a.right_spec() == b.x || b.right_spec() == a.x || a.top_spec() == b.y || b.top_spec() == a.y,
    ensures
        !a.intersects_spec(b),
        !b.intersects_spec(a),
{
}

/// Two rectangles of positive extent intersect exactly when their common
/// region has positive extent on both axes: overlapping by any positive area
/// counts, touching does not. (A rectangle of zero width or height can pass
/// the strict test while enclosing no area, so those are left out.)
pub proof fn lemma_intersects_iff_positive_overlap(a: Rectangle, b: Rectangle)
    requires
        a.width > 0,
        a.height > 0,
        b.width > 0,
        b.height > 0,
    ensures
        a.intersects_spec(b) <==> {
            &&& max(a.x as int, b.x as int) < min(a.right_spec(), b.right_spec())
            &&& max(a.y as int, b.y as int) < min(a.top_spec(), b.top_spec())
        },
{
}

} // verus!

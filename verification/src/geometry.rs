use vstd::prelude::*;

verus! {

/// An axis-aligned rectangle in device coordinates. Its four edges belong to
/// it: the point `(left, top)` and the point `(right, bottom)` are both inside.
#[derive(Clone, Copy, Debug, PartialEq, Eq, Structural)]
pub struct Rect {
    pub left: i32,
    pub top: i32,
    pub right: i32,
    pub bottom: i32,
}

impl Rect {
    /// A rectangle holds at least one point.
    pub open spec fn wf(self) -> bool {
        self.left <= self.right && self.top <= self.bottom
    }

    /// The point `(x, y)` lies in the rectangle, edges included.
    pub open spec fn contains_point(self, x: int, y: int) -> bool {
        self.left <= x <= self.right && self.top <= y <= self.bottom
    }

    /// Every point of `inner` lies between the edges of `self`.
    pub open spec fn covers(self, inner: Rect) -> bool {
        &&& self.left <= inner.left
        &&& inner.right <= self.right
        &&& self.top <= inner.top
        &&& inner.bottom <= self.bottom
    }

    /// Neither rectangle lies wholly to one side of the other.
    pub open spec fn spec_intersects(self, other: Rect) -> bool {
        !(self.right < other.left || self.left > other.right || self.bottom < other.top
            || self.top > other.bottom)
    }

    /// The rectangle with the given edges.
    pub fn new(left: i32, top: i32, right: i32, bottom: i32) -> (r: Rect)
        ensures
            r == (Rect { left, top, right, bottom }),
    {
        Rect { left, top, right, bottom }
    }

    /// Whether the two rectangles overlap, touching edges included.
    pub fn intersects(&self, other: &Rect) -> (r: bool)
        ensures
            r == self.spec_intersects(*other),
    {
        !(self.right < other.left || self.left > other.right || self.bottom < other.top
            || self.top > other.bottom)
    }
}

/// Two rectangles intersect exactly when some point lies in both.
pub proof fn lemma_intersects_iff_shared_point(a: Rect, b: Rect)
    requires
        a.wf(),
        b.wf(),
    ensures
        a.spec_intersects(b) <==> exists|x: int, y: int|
            a.contains_point(x, y) && b.contains_point(x, y),
{
    if a.spec_intersects(b) {
        let x: int = if a.left >= b.left { a.left as int } else { b.left as int };
        let y: int = if a.top >= b.top { a.top as int } else { b.top as int };
        assert(a.contains_point(x, y) && b.contains_point(x, y));
    }
}

/// Intersection does not depend on the order of the two rectangles.
pub proof fn lemma_intersects_symmetric(a: Rect, b: Rect)
    ensures
        a.spec_intersects(b) == b.spec_intersects(a),
{
}

/// A rectangle that covers another one intersects it, in either order.
pub proof fn lemma_covering_intersects(outer: Rect, inner: Rect)
    requires
        inner.wf(),
        outer.covers(inner),
    ensures
        outer.spec_intersects(inner),
        inner.spec_intersects(outer),
{
}

} // verus!

//! Geometry on the grid of logical points: points, sizes, rectangles and the
//! containment tests that every bounds check of the engine is made of.

use vstd::prelude::*;

verus! {

/// A position on the grid of logical points.
#[derive(Clone, Copy, Debug, PartialEq, Eq, Hash, Structural)]
pub struct Point {
    pub x: u32,
    pub y: u32,
}

/// An extent in logical points. An unsigned extent is never negative.
#[derive(Clone, Copy, Debug, PartialEq, Eq, Hash, Structural)]
pub struct Size {
    pub width: u32,
    pub height: u32,
}

/// The points `(x, y)` with `origin.x <= x < origin.x + width` and
/// `origin.y <= y < origin.y + height`.
#[derive(Clone, Copy, Debug, PartialEq, Eq, Hash, Structural)]
pub struct Rect {
    pub origin: Point,
    pub size: Size,
}

impl Point {
    /// The point `(x, y)`.
    pub fn new(x: u32, y: u32) -> (p: Point)
        ensures
            p == (Point { x, y }),
    {
        Point { x, y }
    }
}

impl Size {
    /// The extent `width` by `height`.
    pub fn new(width: u32, height: u32) -> (s: Size)
        ensures
            s == (Size { width, height }),
    {
        Size { width, height }
    }
}

impl Rect {
    /// The rectangle of the given size whose top-left corner is `origin`.
    pub fn new(origin: Point, size: Size) -> (r: Rect)
        ensures
            r == (Rect { origin, size }),
    {
        Rect { origin, size }
    }

    /// The first column to the right of the rectangle.
    pub open spec fn spec_max_x(self) -> int {
        self.origin.x + self.size.width
    }

    /// The first row below the rectangle.
    pub open spec fn spec_max_y(self) -> int {
        self.origin.y + self.size.height
    }

    /// Membership of a point given by its coordinates: the near edges belong
    /// to the rectangle, the far edges do not.
    pub open spec fn spec_contains_xy(self, x: int, y: int) -> bool {
        self.origin.x <= x < self.spec_max_x() && self.origin.y <= y < self.spec_max_y()
    }

    /// Membership of a point.
    pub open spec fn spec_contains_point(self, p: Point) -> bool {
        self.spec_contains_xy(p.x as int, p.y as int)
    }

    /// Whether `inner` lies within `self`: it starts no earlier and ends no
    /// later, on both axes. A rectangle without area on an edge of `self`
    /// lies within it.
    pub open spec fn spec_contains_rect(self, inner: Rect) -> bool {
        &&& self.origin.x <= inner.origin.x
        &&& self.origin.y <= inner.origin.y
        &&& inner.spec_max_x() <= self.spec_max_x()
        &&& inner.spec_max_y() <= self.spec_max_y()
    }

    /// The first column to the right of the rectangle.
    pub fn max_x(&self) -> (m: u64)
        ensures
            m == self.spec_max_x(),
    {
        self.origin.x as u64 + self.size.width as u64
    }

    /// The first row below the rectangle.
    pub fn max_y(&self) -> (m: u64)
        ensures
            m == self.spec_max_y(),
    {
        self.origin.y as u64 + self.size.height as u64
    }

    /// Whether the point belongs to the rectangle.
    pub fn contains_point(&self, p: Point) -> (c: bool)
        ensures
            c == self.spec_contains_point(p),
    {
        p.x >= self.origin.x && p.y >= self.origin.y && (p.x as u64) < self.max_x() && (p.y as u64)
            < self.max_y()
    }

    /// Whether `inner` lies within the rectangle.
    pub fn contains_rect(&self, inner: Rect) -> (c: bool)
        ensures
            c == self.spec_contains_rect(inner),
    {
        inner.origin.x >= self.origin.x && inner.origin.y >= self.origin.y && inner.max_x()
            <= self.max_x() && inner.max_y() <= self.max_y()
    }
}

/// Every point of a rectangle that lies within another belongs to the other.
pub proof fn lemma_contained_rect_points(outer: Rect, inner: Rect, p: Point)
    requires
        outer.spec_contains_rect(inner),
        inner.spec_contains_point(p),
    ensures
        outer.spec_contains_point(p),
{
}

/// A rectangle lies within itself, and lying within is transitive.
pub proof fn lemma_contains_rect_order(a: Rect, b: Rect, c: Rect)
    ensures
        a.spec_contains_rect(a),
        a.spec_contains_rect(b) && b.spec_contains_rect(c) ==> a.spec_contains_rect(c),
{
}

/// A rectangle one point wide and one point high holds its origin and
/// nothing else.
pub proof fn lemma_unit_rect(origin: Point, p: Point)
    ensures
        (Rect { origin, size: Size { width: 1, height: 1 } }).spec_contains_point(p) <==> p
            == origin,
{
}

/// Two rectangles side by side share no point.
pub proof fn lemma_adjacent_rects_disjoint(left: Rect, right: Rect, p: Point)
    requires
        right.origin.x == left.spec_max_x(),
    ensures
        !(left.spec_contains_point(p) && right.spec_contains_point(p)),
{
}

} // verus!

use vstd::prelude::*;

use crate::canvas::MAX_COORD;

verus! {

/// An unsigned pixel coordinate.
#[derive(Debug, Copy, Clone)]
pub struct Point {
    pub x: usize,
    pub y: usize,
}

/// The point is small enough for the signed cross products of the
/// orientation test to stay inside 64-bit arithmetic.
pub open spec fn point_bounded(p: Point) -> bool {
    p.x <= MAX_COORD && p.y <= MAX_COORD
}

impl From<(usize, usize)> for Point {
    fn from(orig: (usize, usize)) -> Point {
        Point { x: orig.0, y: orig.1 }
    }
}

impl vstd::std_specs::convert::FromSpecImpl<(usize, usize)> for Point {
    open spec fn obeys_from_spec() -> bool {
        true
    }

    open spec fn from_spec(orig: (usize, usize)) -> Point {
        Point { x: orig.0, y: orig.1 }
    }
}

/// An undirected segment between two pixel coordinates.
#[derive(Debug, Copy, Clone)]
pub struct LineSegment {
    pub p1: Point,
    pub p2: Point,
}

/// Both endpoints of the segment are bounded.
pub open spec fn segment_bounded(s: LineSegment) -> bool {
    point_bounded(s.p1) && point_bounded(s.p2)
}

impl From<(Point, Point)> for LineSegment {
    fn from(orig: (Point, Point)) -> LineSegment {
        LineSegment { p1: orig.0, p2: orig.1 }
    }
}

impl vstd::std_specs::convert::FromSpecImpl<(Point, Point)> for LineSegment {
    open spec fn obeys_from_spec() -> bool {
        true
    }

    open spec fn from_spec(orig: (Point, Point)) -> LineSegment {
        LineSegment { p1: orig.0, p2: orig.1 }
    }
}

/// The triangle `a`, `b`, `c` makes a counter-clockwise turn: the signed
/// area cross product `(c.y - a.y) * (b.x - a.x)` exceeds
/// `(b.y - a.y) * (c.x - a.x)`.
pub open spec fn spec_ccw(a: Point, b: Point, c: Point) -> bool {
    (c.y - a.y) * (b.x - a.x) > (b.y - a.y) * (c.x - a.x)
}

/// The proper-intersection predicate on segments `(a, b)` and `(c, d)`:
/// `a` and `b` lie on opposite sides of the line through `c, d`, and
/// `c` and `d` lie on opposite sides of the line through `a, b`.
/// Colinear touching segments do not count as intersecting.
pub open spec fn spec_intersects(s1: LineSegment, s2: LineSegment) -> bool {
    let a = s1.p1;
    let b = s1.p2;
    let c = s2.p1;
    let d = s2.p2;
    &&& spec_ccw(a, c, d) != spec_ccw(b, c, d)
    &&& spec_ccw(a, b, c) != spec_ccw(a, b, d)
}

/// Evaluates the orientation test on points whose coordinates are known:
/// `spec_ccw` holds exactly when the cross product over the given values
/// is positive.
pub proof fn lemma_ccw_eval(
    a: Point,
    b: Point,
    c: Point,
    ax: int,
    ay: int,
    bx: int,
    b_y: int,
    cx: int,
    cy: int,
)
    requires
        a.x == ax,
        a.y == ay,
        b.x == bx,
        b.y == b_y,
        c.x == cx,
        c.y == cy,
    ensures
        spec_ccw(a, b, c) == ((cy - ay) * (bx - ax) > ((b_y - ay) * (cx - ax))),
{
}

impl LineSegment {
    /// Counter-clockwise orientation test over signed 64-bit arithmetic.
    pub fn ccw(a: &Point, b: &Point, c: &Point) -> (r: bool)
        requires
            point_bounded(*a),
            point_bounded(*b),
            point_bounded(*c),
        ensures
            r == spec_ccw(*a, *b, *c),
    {
        proof {
            assert((c.y - a.y) * (b.x - a.x) <= 0x1000_0000_0000_0000int && -(
            0x1000_0000_0000_0000int) <= (c.y - a.y) * (b.x - a.x)) by (nonlinear_arith)
                requires
                    -(0x4000_0000int) <= c.y - a.y <= 0x4000_0000int,
                    -(0x4000_0000int) <= b.x - a.x <= 0x4000_0000int,
            ;
            assert((b.y - a.y) * (c.x - a.x) <= 0x1000_0000_0000_0000int && -(
            0x1000_0000_0000_0000int) <= (b.y - a.y) * (c.x - a.x)) by (nonlinear_arith)
                requires
                    -(0x4000_0000int) <= b.y - a.y <= 0x4000_0000int,
                    -(0x4000_0000int) <= c.x - a.x <= 0x4000_0000int,
            ;
        }
        (c.y as i64 - a.y as i64) * (b.x as i64 - a.x as i64) > (b.y as i64 - a.y as i64) * (
        c.x as i64 - a.x as i64)
    }

    /// Whether this segment properly intersects `ls2`.
    pub fn intersects(&self, ls2: LineSegment) -> (r: bool)
        requires
            segment_bounded(*self),
            segment_bounded(ls2),
        ensures
            r == spec_intersects(*self, ls2),
    {
        let a = &self.p1;
        let b = &self.p2;
        let c = &ls2.p1;
        let d = &ls2.p2;
        LineSegment::ccw(a, c, d) != LineSegment::ccw(b, c, d) && LineSegment::ccw(a, b, c)
            != LineSegment::ccw(a, b, d)
    }
}

} // verus!

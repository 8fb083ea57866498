use simple_game_examples::{LineSegment, Point};

fn seg(x1: usize, y1: usize, x2: usize, y2: usize) -> LineSegment {
    LineSegment {
        p1: Point { x: x1, y: y1 },
        p2: Point { x: x2, y: y2 },
    }
}

#[test]
fn square_diagonals_cross() {
    let d1 = seg(0, 0, 4, 4);
    let d2 = seg(0, 4, 4, 0);
    assert!(d1.intersects(d2));
    assert!(d2.intersects(d1));
}

#[test]
fn disjoint_colinear_segments_do_not_cross() {
    let s1 = seg(0, 0, 1, 0);
    let s2 = seg(2, 0, 3, 0);
    assert!(!s1.intersects(s2));
    assert!(!s2.intersects(s1));
}

#[test]
fn touching_colinear_segments_do_not_cross() {
    let s1 = seg(0, 0, 2, 0);
    let s2 = seg(2, 0, 4, 0);
    assert!(!s1.intersects(s2));
}

#[test]
fn parallel_segments_do_not_cross() {
    let s1 = seg(0, 0, 4, 0);
    let s2 = seg(0, 1, 4, 1);
    assert!(!s1.intersects(s2));
}

#[test]
fn crossing_segments_intersect() {
    let s1 = seg(0, 1, 4, 1);
    let s2 = seg(2, 0, 2, 3);
    assert!(s1.intersects(s2));
}

#[test]
fn ccw_turns() {
    let a = Point { x: 0, y: 0 };
    let b = Point { x: 1, y: 0 };
    let c = Point { x: 0, y: 1 };
    assert!(LineSegment::ccw(&a, &b, &c));
    assert!(!LineSegment::ccw(&a, &c, &b));
}

#[test]
fn ccw_colinear_is_false() {
    let a = Point { x: 0, y: 0 };
    let b = Point { x: 1, y: 1 };
    let c = Point { x: 2, y: 2 };
    assert!(!LineSegment::ccw(&a, &b, &c));
}

#[test]
fn point_from_tuple() {
    let p = Point::from((3, 7));
    assert_eq!(p.x, 3);
    assert_eq!(p.y, 7);
}

#[test]
fn segment_from_points() {
    let s = LineSegment::from((Point { x: 1, y: 2 }, Point { x: 3, y: 4 }));
    assert_eq!(s.p1.x, 1);
    assert_eq!(s.p1.y, 2);
    assert_eq!(s.p2.x, 3);
    assert_eq!(s.p2.y, 4);
}

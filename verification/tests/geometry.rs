//! Half-open rectangle containment, probed at every corner and one pixel
//! beyond every edge.

use gouache_ui::Point;
use gouache_ui::Rect;

#[test]
fn contains_is_half_open_at_corners() {
    let r = Rect::new(10, 20, 30, 40);
    // The four corners: only the top-left one is inside.
    assert!(r.contains(Point::new(10, 20)));
    assert!(!r.contains(Point::new(40, 20)));
    assert!(!r.contains(Point::new(10, 60)));
    assert!(!r.contains(Point::new(40, 60)));
    // The included corners of the pixel grid just inside.
    assert!(r.contains(Point::new(39, 20)));
    assert!(r.contains(Point::new(10, 59)));
    assert!(r.contains(Point::new(39, 59)));
}

#[test]
fn contains_rejects_one_pixel_beyond_each_edge() {
    let r = Rect::new(10, 20, 30, 40);
    assert!(!r.contains(Point::new(9, 30)));
    assert!(!r.contains(Point::new(40, 30)));
    assert!(!r.contains(Point::new(20, 19)));
    assert!(!r.contains(Point::new(20, 60)));
    // Interior and on the included edges.
    assert!(r.contains(Point::new(20, 30)));
    assert!(r.contains(Point::new(10, 30)));
    assert!(r.contains(Point::new(20, 20)));
}

#[test]
fn empty_rect_contains_nothing() {
    let r = Rect::new(5, 5, 0, 0);
    assert!(!r.contains(Point::new(5, 5)));
    assert!(!r.contains(Point::new(4, 5)));
    assert!(!r.contains(Point::new(6, 5)));
}

#[test]
fn extreme_coordinates_do_not_wrap() {
    // The right edge lies beyond i32::MAX; containment must still be exact.
    let r = Rect::new(i32::MAX - 10, 0, 20, 5);
    assert!(r.contains(Point::new(i32::MAX, 0)));
    assert!(r.contains(Point::new(i32::MAX - 10, 4)));
    assert!(!r.contains(Point::new(i32::MAX - 11, 0)));
    assert!(!r.contains(Point::new(i32::MAX, 5)));

    let s = Rect::new(i32::MIN, i32::MIN, 1, 1);
    assert!(s.contains(Point::new(i32::MIN, i32::MIN)));
    assert!(!s.contains(Point::new(i32::MIN + 1, i32::MIN)));
}

#[test]
fn negative_coordinates_follow_the_same_rule() {
    let r = Rect::new(-10, -10, 5, 5);
    assert!(r.contains(Point::new(-10, -10)));
    assert!(r.contains(Point::new(-6, -6)));
    assert!(!r.contains(Point::new(-5, -6)));
    assert!(!r.contains(Point::new(-11, -10)));
}

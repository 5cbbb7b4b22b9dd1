use freenukum::collision::overlap_area_area;
use freenukum::geometry::Geometry;

#[test]
fn overlap_of_areas() {
    assert!(overlap_area_area(0, 0, 10, 10, 5, 5, 10, 10));
    assert!(!overlap_area_area(0, 0, 10, 10, 10, 0, 10, 10));
    assert!(!overlap_area_area(0, 0, 10, 10, 0, 10, 10, 10));
    assert!(overlap_area_area(-5, -5, 10, 10, 4, 4, 1, 1));
}

#[test]
fn overlapping_rectangles() {
    let a = Geometry::new(0, 0, 16, 16);
    let b = Geometry::new(15, 15, 16, 16);
    let c = Geometry::new(16, 0, 16, 16);
    assert!(a.overlaps(b));
    assert!(b.overlaps(a));
    assert!(!a.overlaps(c));
    assert!(!c.overlaps(a));
}

#[test]
fn touching_rectangles() {
    let a = Geometry::new(0, 0, 16, 16);
    let edge = Geometry::new(16, 0, 16, 16);
    let apart = Geometry::new(17, 0, 16, 16);
    assert!(a.touches(edge));
    assert!(edge.touches(a));
    assert!(!a.touches(apart));
    // what overlaps also touches
    let inside = Geometry::new(4, 4, 2, 2);
    assert!(a.overlaps(inside) && a.touches(inside));
}

#[test]
fn vertical_overlap_and_distance() {
    let a = Geometry::new(0, 0, 16, 32);
    let right = Geometry::new(40, 20, 16, 16);
    let below = Geometry::new(40, 32, 16, 16);
    assert!(a.overlaps_vertically(right));
    assert!(!a.overlaps_vertically(below));
    assert_eq!(a.horizontal_distance(right), 24);
    assert_eq!(right.horizontal_distance(a), -24);
    assert_eq!(a.horizontal_distance(Geometry::new(8, 100, 4, 4)), 0);
}

#[test]
fn setters_and_getters() {
    let mut g = Geometry::new(1, 2, 3, 4);
    assert_eq!((g.x(), g.y(), g.w(), g.h()), (1, 2, 3, 4));
    g.set_x(10);
    g.set_y(-20);
    g.set_w(30);
    g.set_h(40);
    assert_eq!(g, Geometry::new(10, -20, 30, 40));
    g.add_x(5);
    g.add_y(-5);
    assert_eq!((g.x(), g.y()), (15, -25));
    g.set_data(7, 8, 9, 10);
    assert_eq!(g, Geometry::new(7, 8, 9, 10));
    assert_eq!(Geometry::default(), Geometry::new(0, 0, 0, 0));
}

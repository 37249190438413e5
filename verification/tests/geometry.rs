use qlcpp::geometry::{Point, Region};

#[test]
fn region_contains_point() {
    let r = Region::new(10, 20, 100, 50);
    assert!(r.contains_point(Point::new(10, 20)));
    assert!(r.contains_point(Point::new(109, 69)));
    assert!(!r.contains_point(Point::new(110, 69)));
    assert!(!r.contains_point(Point::new(109, 70)));
    assert!(!r.contains_point(Point::new(9, 20)));
}

#[test]
fn empty_region_contains_nothing() {
    let r = Region::new(10, 20, 0, 0);
    assert!(!r.contains_point(Point::new(10, 20)));
}

#[test]
fn intersect_overlapping() {
    let a = Region::new(0, 0, 100, 100);
    let b = Region::new(50, 60, 100, 100);
    let i = a.intersect(&b);
    assert_eq!(i.x, 50);
    assert_eq!(i.y, 60);
    assert_eq!(i.width, 50);
    assert_eq!(i.height, 40);
}

#[test]
fn intersect_disjoint_is_empty() {
    let a = Region::new(0, 0, 10, 10);
    let b = Region::new(100, 100, 10, 10);
    let i = a.intersect(&b);
    assert_eq!(i.width, 0);
    assert_eq!(i.height, 0);
}

#[test]
fn intersect_nested_keeps_inner() {
    let outer = Region::new(0, 0, 640, 480);
    let inner = Region::new(10, 10, 100, 50);
    let i = outer.intersect(&inner);
    assert_eq!(i, inner);
}

#[test]
fn pad_grows_all_sides() {
    let r = Region::new(10, 10, 33, 20);
    let p = r.pad(5);
    assert_eq!(p.x, 5);
    assert_eq!(p.y, 5);
    assert_eq!(p.width, 43);
    assert_eq!(p.height, 30);
}

use platformer_core::data::MaybeAlive;
use platformer_core::data::Rectangle;

#[test]
fn overlap_matches_intersection_depth_when_overlapping() {
    let a = Rectangle { x: 0, y: 0, w: 10, h: 10 };
    let b = Rectangle { x: 4, y: 2, w: 6, h: 8 };
    assert!(a.overlaps(b));
    assert!(a.intersection_depth(&b).is_some());
}

#[test]
fn overlap_matches_intersection_depth_when_apart() {
    let a = Rectangle { x: 0, y: 0, w: 10, h: 10 };
    let b = Rectangle { x: 30, y: 0, w: 10, h: 10 };
    assert!(!a.overlaps(b));
    assert!(a.intersection_depth(&b).is_none());
}

#[test]
fn touching_edges_do_not_overlap() {
    let a = Rectangle { x: 0, y: 0, w: 10, h: 10 };
    let b = Rectangle { x: 10, y: 0, w: 10, h: 10 };
    assert!(!a.overlaps(b));
    assert!(a.intersection_depth(&b).is_none());
}

#[test]
fn zero_extent_box_on_an_edge_does_not_overlap() {
    // the test is strict, so a degenerate box on the boundary touches only
    let a = Rectangle { x: 10, y: 5, w: 0, h: 0 };
    let b = Rectangle { x: 0, y: 0, w: 10, h: 10 };
    assert!(!a.overlaps(b));
    assert!(a.intersection_depth(&b).is_none());
    // strictly inside, even a degenerate box counts as overlapping
    let inside = Rectangle { x: 5, y: 5, w: 0, h: 0 };
    assert!(inside.overlaps(b));
    assert!(inside.intersection_depth(&b).is_some());
}

#[test]
fn intersection_depth_exact_values() {
    let a = Rectangle { x: 0, y: 0, w: 10, h: 10 };
    let b = Rectangle { x: 4, y: 2, w: 6, h: 8 };
    // a's center lies left of and above b's center, so a is pushed left/up
    assert_eq!(a.intersection_depth(&b), Some((-6, -8)));
}

#[test]
fn intersection_depth_signs_flip_with_the_operands() {
    let a = Rectangle { x: 0, y: 0, w: 10, h: 10 };
    let b = Rectangle { x: 4, y: 2, w: 6, h: 8 };
    let d_ab = a.intersection_depth(&b).unwrap();
    let d_ba = b.intersection_depth(&a).unwrap();
    assert_eq!(d_ab.0, -d_ba.0);
    assert_eq!(d_ab.1, -d_ba.1);
}

#[test]
fn move_inside_clamps_to_the_origin_corner() {
    let inner = Rectangle { x: -10, y: -10, w: 40, h: 40 };
    let parent = Rectangle { x: 0, y: 0, w: 800, h: 600 };
    assert_eq!(inner.move_inside(parent), Some(Rectangle { x: 0, y: 0, w: 40, h: 40 }));
}

#[test]
fn move_inside_rejects_an_oversized_box() {
    let inner = Rectangle { x: 0, y: 0, w: 900, h: 40 };
    let parent = Rectangle { x: 0, y: 0, w: 800, h: 600 };
    assert_eq!(inner.move_inside(parent), None);
}

#[test]
fn move_inside_clamps_the_far_edges() {
    let inner = Rectangle { x: 790, y: 590, w: 40, h: 40 };
    let parent = Rectangle { x: 0, y: 0, w: 800, h: 600 };
    assert_eq!(inner.move_inside(parent), Some(Rectangle { x: 760, y: 560, w: 40, h: 40 }));
}

#[test]
fn move_inside_keeps_a_fitting_box_where_it_is() {
    let inner = Rectangle { x: 100, y: 100, w: 40, h: 40 };
    let parent = Rectangle { x: 0, y: 0, w: 800, h: 600 };
    assert_eq!(inner.move_inside(parent), Some(inner));
}

#[test]
fn contains_is_inclusive_on_the_edges() {
    let outer = Rectangle { x: 0, y: 0, w: 100, h: 100 };
    assert!(outer.contains(Rectangle { x: 0, y: 0, w: 100, h: 100 }));
    assert!(outer.contains(Rectangle { x: 10, y: 20, w: 30, h: 40 }));
    assert!(!outer.contains(Rectangle { x: 90, y: 0, w: 20, h: 10 }));
    assert!(!outer.contains(Rectangle { x: -1, y: 0, w: 10, h: 10 }));
}

#[test]
fn with_size_sits_at_the_origin() {
    assert_eq!(Rectangle::with_size(40, 32), Rectangle { x: 0, y: 0, w: 40, h: 32 });
}

#[test]
fn center_and_center_at_round_trip() {
    let r = Rectangle { x: 10, y: 20, w: 40, h: 60 };
    assert_eq!(r.center(), (30, 50));
    let moved = r.center_at(100, 200);
    assert_eq!(moved, Rectangle { x: 80, y: 170, w: 40, h: 60 });
    assert_eq!(moved.center(), (100, 200));
}

#[test]
fn maybe_alive_filters_by_the_flag() {
    let alive = MaybeAlive { alive: true, value: 7_i32 };
    assert_eq!(alive.as_option(), Some(7));
    let dead = MaybeAlive { alive: false, value: 7_i32 };
    assert_eq!(dead.as_option(), None);
}

#[test]
fn coincident_centers_push_the_same_way() {
    // with the centers equal there is no asymmetry: both orders push in
    // the same (negative) direction by the same amount
    let a = Rectangle { x: 0, y: 0, w: 10, h: 10 };
    assert_eq!(a.intersection_depth(&a), Some((-10, -10)));
    let b = Rectangle { x: 2, y: 2, w: 6, h: 6 };
    assert_eq!(a.intersection_depth(&b), Some((-8, -8)));
    assert_eq!(b.intersection_depth(&a), Some((-8, -8)));
}

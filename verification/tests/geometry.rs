use arcaders::data::Rectangle;

#[test]
fn contains_inner_rectangle() {
    let outer = Rectangle { x: 0, y: 0, w: 100, h: 100 };
    let inner = Rectangle { x: 10, y: 20, w: 30, h: 40 };
    assert!(outer.contains(inner));
    assert!(!inner.contains(outer));
}

#[test]
fn contains_counts_boundary_contact() {
    let outer = Rectangle { x: 0, y: 0, w: 100, h: 100 };
    let flush = Rectangle { x: 0, y: 0, w: 100, h: 100 };
    let right_edge = Rectangle { x: 60, y: 0, w: 40, h: 100 };
    assert!(outer.contains(flush));
    assert!(outer.contains(right_edge));
    let spill = Rectangle { x: 61, y: 0, w: 40, h: 100 };
    assert!(!outer.contains(spill));
}

#[test]
fn overlaps_counts_boundary_contact() {
    let a = Rectangle { x: 0, y: 0, w: 10, h: 10 };
    let touching = Rectangle { x: 10, y: 0, w: 10, h: 10 };
    let apart = Rectangle { x: 11, y: 0, w: 10, h: 10 };
    let crossing = Rectangle { x: 5, y: 5, w: 10, h: 10 };
    assert!(a.overlaps(touching));
    assert!(!a.overlaps(apart));
    assert!(a.overlaps(crossing));
}

#[test]
fn move_inside_clamps_to_the_right_edge() {
    let ship = Rectangle { x: 760, y: 0, w: 43, h: 39 };
    let movable = Rectangle { x: 0, y: 0, w: 560, h: 600 };
    let clamped = ship.move_inside(movable).unwrap();
    assert_eq!(clamped, Rectangle { x: 517, y: 0, w: 43, h: 39 });
}

#[test]
fn move_inside_clamps_to_the_low_edges() {
    let r = Rectangle { x: -25, y: -3, w: 10, h: 10 };
    let parent = Rectangle { x: 5, y: 7, w: 100, h: 100 };
    let clamped = r.move_inside(parent).unwrap();
    assert_eq!(clamped, Rectangle { x: 5, y: 7, w: 10, h: 10 });
}

#[test]
fn move_inside_keeps_a_fitting_rectangle() {
    let r = Rectangle { x: 30, y: 40, w: 10, h: 10 };
    let parent = Rectangle { x: 0, y: 0, w: 100, h: 100 };
    assert_eq!(r.move_inside(parent), Some(r));
}

#[test]
fn move_inside_is_idempotent() {
    let r = Rectangle { x: 999, y: -999, w: 43, h: 39 };
    let parent = Rectangle { x: 0, y: 0, w: 560, h: 600 };
    let once = r.move_inside(parent).unwrap();
    let twice = once.move_inside(parent).unwrap();
    assert_eq!(once, twice);
}

#[test]
fn move_inside_rejects_too_wide() {
    let r = Rectangle { x: 0, y: 0, w: 561, h: 10 };
    let parent = Rectangle { x: 0, y: 0, w: 560, h: 600 };
    assert_eq!(r.move_inside(parent), None);
}

#[test]
fn move_inside_rejects_too_tall() {
    let r = Rectangle { x: 0, y: 0, w: 10, h: 601 };
    let parent = Rectangle { x: 0, y: 0, w: 560, h: 600 };
    assert_eq!(r.move_inside(parent), None);
}

#[test]
fn move_inside_accepts_exact_fit() {
    let r = Rectangle { x: 17, y: -4, w: 560, h: 600 };
    let parent = Rectangle { x: 0, y: 0, w: 560, h: 600 };
    assert_eq!(
        r.move_inside(parent),
        Some(Rectangle { x: 0, y: 0, w: 560, h: 600 })
    );
}

use picorex::geometry::{bounding_boxes_overlap, Point, Rect};

fn rect(x: i32, y: i32, w: u32, h: u32) -> Rect {
    Rect { origin: Point::new(x, y), width: w, height: h }
}

#[test]
fn edge_touching_is_not_a_collision() {
    // Character box (10,29)-(19,39) and obstacle box (19,35)-(25,45) share
    // only the boundary column x = 19: no collision.
    let character = rect(10, 29, 10, 11);
    let obstacle = rect(19, 35, 7, 11);
    assert!(!bounding_boxes_overlap(character, obstacle));
    assert!(!bounding_boxes_overlap(obstacle, character));
}

#[test]
fn one_pixel_overlap_is_a_collision() {
    // The same obstacle shifted one pixel left overlaps by one unit.
    let character = rect(10, 29, 10, 11);
    let obstacle = rect(18, 35, 7, 11);
    assert!(bounding_boxes_overlap(character, obstacle));
    assert!(bounding_boxes_overlap(obstacle, character));
}

#[test]
fn vertical_edge_touching_is_not_a_collision() {
    let a = rect(0, 0, 10, 10);
    let below = rect(0, 9, 10, 10); // shares only the row y = 9
    let overlapping = rect(0, 8, 10, 10);
    assert!(!bounding_boxes_overlap(a, below));
    assert!(bounding_boxes_overlap(a, overlapping));
}

#[test]
fn zero_sized_boxes_never_collide() {
    let a = rect(0, 0, 0, 10);
    let b = rect(0, 0, 10, 10);
    assert!(!bounding_boxes_overlap(a, b));
    assert!(!bounding_boxes_overlap(b, a));
    let c = rect(0, 0, 10, 0);
    assert!(!bounding_boxes_overlap(b, c));
}

#[test]
fn identical_boxes_collide() {
    let a = rect(5, 5, 3, 3);
    assert!(bounding_boxes_overlap(a, a));
}

#[test]
fn disjoint_boxes_do_not_collide() {
    let a = rect(0, 0, 5, 5);
    let b = rect(100, 100, 5, 5);
    assert!(!bounding_boxes_overlap(a, b));
}

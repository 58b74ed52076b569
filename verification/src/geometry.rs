use vstd::prelude::*;

verus! {

/// A screen-space coordinate in integer pixels. The origin is the top-left
/// corner of the screen; `y` grows downwards.
#[derive(Clone, Copy, PartialEq, Eq, Structural, Debug)]
pub struct Point {
    pub x: i32,
    pub y: i32,
}

impl Point {
    pub fn new(x: i32, y: i32) -> (p: Point)
        ensures
            p.x == x,
            p.y == y,
    {
        Point { x, y }
    }
}

/// An axis-aligned rectangle: `origin` is its top-left corner, `width` and
/// `height` its extent in pixels. The bottom-right corner is
/// `origin + size - 1`, so a zero-sized rectangle has no corner and can
/// overlap nothing.
#[derive(Clone, Copy, PartialEq, Eq, Structural, Debug)]
pub struct Rect {
    pub origin: Point,
    pub width: u32,
    pub height: u32,
}

/// The x coordinate of the rightmost column of `r` (inclusive).
pub open spec fn right_edge(r: Rect) -> int {
    r.origin.x + r.width - 1
}

/// The y coordinate of the bottom row of `r` (inclusive).
pub open spec fn bottom_edge(r: Rect) -> int {
    r.origin.y + r.height - 1
}

/// Two rectangles overlap when both are non-empty and their projections on
/// each axis properly intersect. The comparisons are strict, so rectangles
/// that merely share a boundary line do not overlap.
pub open spec fn rect_overlap(a: Rect, b: Rect) -> bool {
    &&& a.width > 0
    &&& a.height > 0
    &&& b.width > 0
    &&& b.height > 0
    &&& a.origin.x < right_edge(b)
    &&& right_edge(a) > b.origin.x
    &&& a.origin.y < bottom_edge(b)
    &&& bottom_edge(a) > b.origin.y
}

/// Whether two rectangular bounding boxes overlap; edge-touching boxes
/// (zero-area intersection) do not count.
pub fn bounding_boxes_overlap(bbox1: Rect, bbox2: Rect) -> (r: bool)
    ensures
        r == rect_overlap(bbox1, bbox2),
{
    if bbox1.width == 0 || bbox1.height == 0 || bbox2.width == 0 || bbox2.height == 0 {
        return false;
    }
    let b1_right: i64 = bbox1.origin.x as i64 + bbox1.width as i64 - 1;
    let b1_bottom: i64 = bbox1.origin.y as i64 + bbox1.height as i64 - 1;
    let b2_right: i64 = bbox2.origin.x as i64 + bbox2.width as i64 - 1;
    let b2_bottom: i64 = bbox2.origin.y as i64 + bbox2.height as i64 - 1;
    let x_overlap = (bbox1.origin.x as i64) < b2_right && b1_right > (bbox2.origin.x as i64);
    let y_overlap = (bbox1.origin.y as i64) < b2_bottom && b1_bottom > (bbox2.origin.y as i64);
    x_overlap && y_overlap
}

} // verus!

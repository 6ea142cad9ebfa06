use vstd::prelude::*;

verus! {

/// A cell position, in the coordinate space of whatever holds it.
#[derive(Clone, Copy, Debug, PartialEq, Eq, Structural)]
pub struct Point {
    pub x: i32,
    pub y: i32,
}

impl Point {
    pub fn new(x: i32, y: i32) -> (p: Point)
        ensures
            p == (Point { x, y }),
    {
        Point { x, y }
    }
}

/// An axis-aligned rectangle: an origin and a size.
#[derive(Clone, Copy, Debug, PartialEq, Eq, Structural)]
pub struct Rect {
    pub x: i32,
    pub y: i32,
    pub w: i32,
    pub h: i32,
}

impl Rect {
    pub fn new(x: i32, y: i32, w: i32, h: i32) -> (r: Rect)
        ensures
            r == (Rect { x, y, w, h }),
    {
        Rect { x, y, w, h }
    }

    /// The far vertical edge, `x + w`. It belongs to the rectangle.
    pub open spec fn right(self) -> int {
        self.x + self.w
    }

    /// The far horizontal edge, `y + h`. It belongs to the rectangle.
    pub open spec fn bottom(self) -> int {
        self.y + self.h
    }

    /// Whether the cell lies in the rectangle, both far edges included:
    /// a rectangle of width `w` spans `w + 1` columns.
    pub open spec fn covers(self, x: int, y: int) -> bool {
        self.x <= x <= self.right() && self.y <= y <= self.bottom()
    }

    /// Whether the cell lies on the left or the right edge column.
    pub open spec fn on_left_or_right_edge(self, x: int) -> bool {
        x == self.x || x == self.right()
    }

    /// Whether the cell lies on the top or the bottom edge row.
    pub open spec fn on_top_or_bottom_edge(self, y: int) -> bool {
        y == self.y || y == self.bottom()
    }

    /// Whether the size is usable: neither extent is negative.
    pub open spec fn has_valid_size(self) -> bool {
        self.w >= 0 && self.h >= 0
    }

    /// Tests `covers` on machine integers, for every `i32` cell.
    pub fn contains_cell(&self, x: i32, y: i32) -> (inside: bool)
        ensures
            inside == self.covers(x as int, y as int),
    {
        let right: i64 = self.x as i64 + self.w as i64;
        let bottom: i64 = self.y as i64 + self.h as i64;
        self.x <= x && x as i64 <= right && self.y <= y && y as i64 <= bottom
    }
}

} // verus!

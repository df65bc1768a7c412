//! Positions, sizes and rectangles on the character grid.
//!
//! Coordinates are cell indices; `y` grows downwards.  A `Rectangle` stores
//! its top-left corner and a non-negative size, and `from_pt` normalises two
//! arbitrary corner points into that form, both corners included.
use vstd::prelude::*;

verus! {

/// A cell coordinate on the character grid.
#[derive(Clone, Copy, Debug, PartialEq, Eq, Structural)]
pub struct Position {
    pub x: i32,
    pub y: i32,
}

impl Position {
    pub fn new(x: i32, y: i32) -> (r: Position)
        ensures
            r.x == x,
            r.y == y,
    {
        Position { x, y }
    }

    /// Component-wise translation.
    pub fn offset(self, o: Position) -> (r: Position)
        requires
            i32::MIN <= self.x + o.x <= i32::MAX,
            i32::MIN <= self.y + o.y <= i32::MAX,
        ensures
            r.x == self.x + o.x,
            r.y == self.y + o.y,
    {
        Position { x: self.x + o.x, y: self.y + o.y }
    }

    /// Coordinates far from the edges of `i32`, so that the cell arithmetic
    /// of the tools cannot overflow.  Every position that denotes a cell or
    /// half-cell of a real buffer is bounded.
    pub open spec fn bounded(self) -> bool {
        &&& -0x1fff_ffff <= self.x <= 0x1fff_ffff
        &&& -0x1fff_ffff <= self.y <= 0x1fff_ffff
    }

    /// Strict order on positions: by `x`, ties broken by `y`.
    pub open spec fn lt_spec(self, o: Position) -> bool {
        self.x < o.x || (self.x == o.x && self.y < o.y)
    }

    /// Whether `self` comes strictly before `o` in the `(x, y)` order.
    pub fn is_before(self, o: Position) -> (r: bool)
        ensures
            r == self.lt_spec(o),
    {
        self.x < o.x || (self.x == o.x && self.y < o.y)
    }
}

impl Default for Position {
    fn default() -> (r: Position)
        ensures
            r.x == 0 && r.y == 0,
    {
        Position { x: 0, y: 0 }
    }
}

/// Width and height of a rectangle, in cells.
#[derive(Clone, Copy, Debug, PartialEq, Eq, Structural)]
pub struct Size {
    pub width: i32,
    pub height: i32,
}

/// An axis-aligned rectangle of grid cells: top-left corner plus size.
#[derive(Clone, Copy, Debug, PartialEq, Eq, Structural)]
pub struct Rectangle {
    pub start: Position,
    pub size: Size,
}

impl Rectangle {
    /// The rectangle is in normal form: non-negative extent.
    pub open spec fn wf(self) -> bool {
        self.size.width >= 0 && self.size.height >= 0
    }

    /// Whether the cell `p` lies inside the rectangle.
    pub open spec fn contains(self, p: Position) -> bool {
        self.covers(p.x as int, p.y as int)
    }

    /// Whether the cell at column `x` of row `y` lies inside the rectangle.
    pub open spec fn covers(self, x: int, y: int) -> bool {
        self.start.x <= x < self.start.x + self.size.width && self.start.y <= y < self.start.y
            + self.size.height
    }

    /// Smallest rectangle that contains the two corner cells `p1` and `p2`.
    pub fn from_pt(p1: Position, p2: Position) -> (r: Rectangle)
        requires
            -0x3fff_ffff <= p1.x <= 0x3fff_ffff,
            -0x3fff_ffff <= p1.y <= 0x3fff_ffff,
            -0x3fff_ffff <= p2.x <= 0x3fff_ffff,
            -0x3fff_ffff <= p2.y <= 0x3fff_ffff,
        ensures
            r.wf(),
            r.start.x == if p1.x <= p2.x { p1.x as int } else { p2.x as int },
            r.start.y == if p1.y <= p2.y { p1.y as int } else { p2.y as int },
            r.size.width == (if p1.x <= p2.x { p2.x - p1.x } else { p1.x - p2.x }) + 1,
            r.size.height == (if p1.y <= p2.y { p2.y - p1.y } else { p1.y - p2.y }) + 1,
            r.contains(p1) && r.contains(p2),
    {
        let x0 = if p1.x <= p2.x { p1.x } else { p2.x };
        let x1 = if p1.x <= p2.x { p2.x } else { p1.x };
        let y0 = if p1.y <= p2.y { p1.y } else { p2.y };
        let y1 = if p1.y <= p2.y { p2.y } else { p1.y };
        Rectangle {
            start: Position { x: x0, y: y0 },
            size: Size { width: x1 - x0 + 1, height: y1 - y0 + 1 },
        }
    }
}

} // verus!

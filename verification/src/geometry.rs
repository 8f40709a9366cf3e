use vstd::prelude::*;

verus! {

/// An axis-aligned region of the output surface: position and extent in
/// character cells.
#[derive(Clone, Copy, PartialEq, Eq, Structural, Debug)]
pub struct Rect {
    pub x: u16,
    pub y: u16,
    pub width: u16,
    pub height: u16,
}

impl Rect {
    pub fn new(x: u16, y: u16, width: u16, height: u16) -> (r: Rect)
        ensures
            r == (Rect { x, y, width, height }),
    {
        Rect { x, y, width, height }
    }

    /// The far edges stay within coordinate range, so sums of a coordinate
    /// and an extent do not wrap.
    pub open spec fn proper(self) -> bool {
        &&& self.x + self.width <= u16::MAX
        &&& self.y + self.height <= u16::MAX
    }

    /// The rectangle lies inside a grid of the given dimensions.
    pub open spec fn in_bounds(self, width: int, height: int) -> bool {
        &&& self.x + self.width <= width
        &&& self.y + self.height <= height
    }

    /// The point (x, y) lies inside the rectangle.
    pub open spec fn contains(self, x: int, y: int) -> bool {
        &&& self.x <= x < self.x + self.width
        &&& self.y <= y < self.y + self.height
    }

    /// No point lies in both rectangles.
    pub open spec fn disjoint(self, other: Rect) -> bool {
        ||| self.x + self.width <= other.x
        ||| other.x + other.width <= self.x
        ||| self.y + self.height <= other.y
        ||| other.y + other.height <= self.y
    }

    /// Every point of `self` lies in `outer`.
    pub open spec fn within(self, outer: Rect) -> bool {
        &&& outer.x <= self.x
        &&& self.x + self.width <= outer.x + outer.width
        &&& outer.y <= self.y
        &&& self.y + self.height <= outer.y + outer.height
    }
}

/// A rule fixing the extent of the first region of a split; the second region
/// always receives the remaining extent.
#[derive(Clone, Copy, PartialEq, Eq, Structural, Debug)]
pub enum Constraint {
    /// A fixed extent, clipped to what is available.
    Length(u16),
    /// A percentage of the available extent.
    Percentage(u16),
    /// A fraction, numerator over denominator, of the available extent.
    Ratio(u32, u32),
    /// A weight for sharing whatever extent no other rule claims.
    Fill(u16),
}

} // verus!

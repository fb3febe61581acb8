use vstd::prelude::*;

verus! {

/// A position in scene coordinates (y grows upward), in whole units.
#[derive(Clone, Copy, Debug, PartialEq, Eq, Structural)]
pub struct Point {
    pub x: i64,
    pub y: i64,
}

impl Point {
    pub fn new(x: i64, y: i64) -> (r: Point)
        ensures
            r.x == x,
            r.y == y,
    {
        Point { x, y }
    }

    /// Whether a pointer delta, given in screen coordinates (y grows downward),
    /// can be applied to this point without leaving the `i64` range.
    pub open spec fn can_shift(self, delta: Point) -> bool {
        i64::MIN <= self.x + delta.x <= i64::MAX && i64::MIN <= self.y - delta.y <= i64::MAX
    }

    /// The point moved by a screen-space delta: the horizontal part is added,
    /// the vertical part is subtracted to turn screen "down" into scene "down".
    pub open spec fn shifted(self, delta: Point) -> Point {
        Point { x: (self.x + delta.x) as i64, y: (self.y - delta.y) as i64 }
    }

    pub fn can_shift_by(&self, delta: Point) -> (r: bool)
        ensures
            r == self.can_shift(delta),
    {
        self.x.checked_add(delta.x).is_some() && self.y.checked_sub(delta.y).is_some()
    }

    pub fn shift(&self, delta: Point) -> (r: Point)
        requires
            self.can_shift(delta),
        ensures
            r == self.shifted(delta),
            r.x == self.x + delta.x,
            r.y == self.y - delta.y,
    {
        Point { x: self.x + delta.x, y: self.y - delta.y }
    }
}

} // verus!

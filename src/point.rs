use vstd::prelude::*;

use crate::direction::Direction;

verus! {

/// A cell of the grid; `(0, 0)` is the top-left corner.
#[derive(Debug, Clone, Copy, Hash, PartialEq, Eq, Structural)]
pub struct Point {
    pub x: u16,
    pub y: u16,
}

impl Point {
    /// The coordinates reached from this point by `n` steps in heading `d`,
    /// before any check that they are representable.
    pub open spec fn moved_coords(self, d: Direction, n: int) -> (int, int) {
        match d {
            Direction::Up => (self.x as int, self.y - n),
            Direction::Right => (self.x + n, self.y as int),
            Direction::Down => (self.x as int, self.y + n),
            Direction::Left => (self.x - n, self.y as int),
        }
    }

    /// Whether `n` steps in heading `d` stay on representable coordinates.
    pub open spec fn can_move(self, d: Direction, n: int) -> bool {
        let (x, y) = self.moved_coords(d, n);
        0 <= x <= u16::MAX && 0 <= y <= u16::MAX
    }

    /// The point reached by `n` steps in heading `d`.
    pub open spec fn moved(self, d: Direction, n: int) -> Point {
        let (x, y) = self.moved_coords(d, n);
        Point { x: x as u16, y: y as u16 }
    }

    /// Whether two points are one orthogonal step apart.
    pub open spec fn adjacent(self, other: Point) -> bool {
        (self.x == other.x && (self.y + 1 == other.y || other.y + 1 == self.y))
        || (self.y == other.y && (self.x + 1 == other.x || other.x + 1 == self.x))
    }

    pub fn new(x: u16, y: u16) -> (r: Point)
        ensures
            r == (Point { x, y }),
    {
        Point { x, y }
    }

    /// Shifts the point by `delta`; the result must not leave the
    /// representable range (a negative coordinate is a programming error).
    pub fn apply_delta(&self, delta: (i16, i16)) -> (r: Point)
        requires
            0 <= self.x + delta.0 <= u16::MAX,
            0 <= self.y + delta.1 <= u16::MAX,
        ensures
            r.x == self.x + delta.0,
            r.y == self.y + delta.1,
    {
        Point::new(
            Point::apply_delta_to_value(self.x, delta.0),
            Point::apply_delta_to_value(self.y, delta.1),
        )
    }

    fn apply_delta_to_value(value: u16, delta: i16) -> (r: u16)
        requires
            0 <= value + delta <= u16::MAX,
        ensures
            r == value + delta,
    {
        (value as i32 + delta as i32) as u16
    }

    /// The point reached by `times` steps in `direction`.
    pub fn transform(&self, direction: Direction, times: u16) -> (r: Point)
        requires
            self.can_move(direction, times as int),
        ensures
            r == self.moved(direction, times as int),
    {
        match direction {
            Direction::Up => Point::new(self.x, self.y - times),
            Direction::Right => Point::new(self.x + times, self.y),
            Direction::Down => Point::new(self.x, self.y + times),
            Direction::Left => Point::new(self.x - times, self.y),
        }
    }
}

} // verus!

use vstd::prelude::*;

verus! {

/// One of the four headings on a grid whose y coordinate grows downward.
#[derive(Debug, Clone, Copy, PartialEq, Eq, Structural)]
pub enum Direction {
    Up,
    Right,
    Down,
    Left,
}

impl Direction {
    /// The heading that points the other way.
    pub open spec fn spec_opposite(self) -> Direction {
        match self {
            Direction::Up => Direction::Down,
            Direction::Right => Direction::Left,
            Direction::Down => Direction::Up,
            Direction::Left => Direction::Right,
        }
    }

    /// The unit step `(dx, dy)` taken when moving one cell in this heading.
    pub open spec fn spec_delta(self) -> (int, int) {
        match self {
            Direction::Up => (0, -1),
            Direction::Right => (1, 0),
            Direction::Down => (0, 1),
            Direction::Left => (-1, 0),
        }
    }

    pub fn opposite(&self) -> (r: Direction)
        ensures
            r == self.spec_opposite(),
    {
        match self {
            Direction::Up => Direction::Down,
            Direction::Right => Direction::Left,
            Direction::Down => Direction::Up,
            Direction::Left => Direction::Right,
        }
    }

    pub fn delta(&self) -> (r: (i16, i16))
        ensures
            (r.0 as int, r.1 as int) == self.spec_delta(),
    {
        match self {
            Direction::Up => (0, -1),
            Direction::Right => (1, 0),
            Direction::Down => (0, 1),
            Direction::Left => (-1, 0),
        }
    }
}

/// Turning around twice gives back the original heading, and a step in a
/// heading is undone by a step in the opposite heading.
pub proof fn opposite_is_involution(d: Direction)
    ensures
        d.spec_opposite().spec_opposite() == d,
        d.spec_delta().0 + d.spec_opposite().spec_delta().0 == 0,
        d.spec_delta().1 + d.spec_opposite().spec_delta().1 == 0,
{
}

} // verus!

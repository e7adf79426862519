use vstd::prelude::*;

use crate::direction::Direction;
use crate::point::Point;

verus! {

/// Every two consecutive segments of `body` are one orthogonal step apart.
pub open spec fn connected(body: Seq<Point>) -> bool {
    forall|i: int| 0 <= i < body.len() - 1 ==> (#[trigger] body[i]).adjacent(body[i + 1])
}

/// The body laid out at creation: the head at `start` and each further
/// segment one step behind the previous one, against the heading.
pub open spec fn initial_body(start: Point, length: nat, direction: Direction) -> Seq<Point> {
    Seq::new(length, |i: int| start.moved(direction.spec_opposite(), i))
}

/// The body after one advance: a new head one step ahead of the old head,
/// then the old body, whose last segment is dropped unless digesting.
pub open spec fn next_body(body: Seq<Point>, direction: Direction, digesting: bool) -> Seq<Point> {
    let rest = if digesting {
        body
    } else {
        body.drop_last()
    };
    seq![body[0].moved(direction, 1)] + rest
}

/// The heading that remains after asking to turn toward `requested`: a
/// request for the exact reverse of `current` is refused.
pub open spec fn guarded_heading(current: Direction, requested: Direction) -> Direction {
    if requested == current.spec_opposite() {
        current
    } else {
        requested
    }
}

/// A snake: its body head first, its heading, and whether the next advance
/// grows the body instead of shifting it.
#[derive(Debug)]
pub struct Snake {
    body: Vec<Point>,
    direction: Direction,
    digesting: bool,
}

impl Snake {
    /// The segments, head first.
    pub closed spec fn spec_body(&self) -> Seq<Point> {
        self.body@
    }

    pub closed spec fn spec_direction(&self) -> Direction {
        self.direction
    }

    pub closed spec fn spec_digesting(&self) -> bool {
        self.digesting
    }

    /// A snake has a head, and its body has no gaps.
    pub open spec fn wf(&self) -> bool {
        self.spec_body().len() >= 1 && connected(self.spec_body())
    }

    /// A snake of `length` segments whose head is at `start`, heading
    /// `direction`, with the body laid out behind the head.
    pub fn new(start: Point, length: u16, direction: Direction) -> (r: Snake)
        requires
            length >= 1,
            start.can_move(direction.spec_opposite(), length - 1),
        ensures
            r.wf(),
            r.spec_body() == initial_body(start, length as nat, direction),
            r.spec_direction() == direction,
            !r.spec_digesting(),
    {
        let opposite = direction.opposite();
        let mut body: Vec<Point> = Vec::new();
        let mut i: u16 = 0;
        while i < length
            invariant
                i <= length,
                opposite == direction.spec_opposite(),
                start.can_move(opposite, length - 1),
                body@ == initial_body(start, i as nat, direction),
            decreases length - i,
        {
            body.push(start.transform(opposite, i));
            i = i + 1;
            assert(body@ =~= initial_body(start, i as nat, direction));
        }
        let r = Snake { body, direction, digesting: false };
        assert(connected(r.body@));
        r
    }

    pub fn get_head_point(&self) -> (r: Point)
        requires
            self.wf(),
        ensures
            r == self.spec_body()[0],
    {
        self.body[0]
    }

    pub fn get_body_points(&self) -> (r: Vec<Point>)
        ensures
            r@ == self.spec_body(),
    {
        let mut r: Vec<Point> = Vec::new();
        let mut i: usize = 0;
        while i < self.body.len()
            invariant
                i <= self.body@.len(),
                r@ == self.body@.subrange(0, i as int),
            decreases self.body@.len() - i,
        {
            r.push(self.body[i]);
            i = i + 1;
            assert(r@ =~= self.body@.subrange(0, i as int));
        }
        assert(r@ =~= self.body@);
        r
    }

    pub fn get_direction(&self) -> (r: Direction)
        ensures
            r == self.spec_direction(),
    {
        self.direction
    }

    pub fn is_digesting(&self) -> (r: bool)
        ensures
            r == self.spec_digesting(),
    {
        self.digesting
    }

    /// Whether `point` is one of the segments.
    pub fn contains_point(&self, point: &Point) -> (r: bool)
        ensures
            r == self.spec_body().contains(*point),
    {
        let mut i: usize = 0;
        while i < self.body.len()
            invariant
                i <= self.body@.len(),
                forall|j: int| 0 <= j < i ==> self.body@[j] != *point,
            decreases self.body@.len() - i,
        {
            if self.body[i] == *point {
                return true;
            }
            i = i + 1;
        }
        false
    }

    /// Advances one step along the heading: a new head is put in front and
    /// the last segment is dropped, or kept once if the snake is digesting.
    pub fn slither(&mut self)
        requires
            old(self).wf(),
            old(self).spec_body()[0].can_move(old(self).spec_direction(), 1),
        ensures
            final(self).wf(),
            final(self).spec_body() == next_body(
                old(self).spec_body(),
                old(self).spec_direction(),
                old(self).spec_digesting(),
            ),
            final(self).spec_direction() == old(self).spec_direction(),
            !final(self).spec_digesting(),
    {
        let ghost body0 = self.body@;
        let ghost digesting0 = self.digesting;
        let head = self.body[0].transform(self.direction, 1);
        self.body.insert(0, head);
        if !self.digesting {
            let last = self.body.len() - 1;
            self.body.remove(last);
        } else {
            self.digesting = false;
        }
        assert(self.body@ =~= next_body(body0, self.direction, digesting0));
        assert(connected(self.body@)) by {
            assert forall|i: int| 0 <= i < self.body@.len() - 1 implies (#[trigger] self.body@[i]).adjacent(
                self.body@[i + 1],
            ) by {
                if i > 0 {
                    assert(self.body@[i] == body0[i - 1]);
                    assert(self.body@[i + 1] == body0[i]);
                }
            }
        }
    }

    /// Turns toward `direction`, unless that is the exact reverse of the
    /// current heading, which would steer the head into the neck.
    pub fn set_direction(&mut self, direction: Direction)
        ensures
            final(self).spec_direction() == guarded_heading(old(self).spec_direction(), direction),
            final(self).spec_direction() != old(self).spec_direction().spec_opposite(),
            final(self).spec_body() == old(self).spec_body(),
            final(self).spec_digesting() == old(self).spec_digesting(),
    {
        if direction != self.direction.opposite() {
            self.direction = direction;
        }
    }

    /// Arms digestion: the next advance grows the body by one segment.
    pub fn grow(&mut self)
        ensures
            final(self).spec_digesting(),
            final(self).spec_body() == old(self).spec_body(),
            final(self).spec_direction() == old(self).spec_direction(),
    {
        self.digesting = true;
    }
}

/// An advance without digestion keeps the length, and every segment but the
/// new head is the segment that stood one place nearer the head before.
pub proof fn slither_shifts_body(body: Seq<Point>, direction: Direction)
    requires
        body.len() >= 1,
    ensures
        next_body(body, direction, false).len() == body.len(),
        next_body(body, direction, false)[0] == body[0].moved(direction, 1),
        forall|i: int|
            1 <= i < body.len() ==> #[trigger] next_body(body, direction, false)[i] == body[i - 1],
{
}

/// Arming digestion and then advancing once lengthens the body by exactly
/// one segment and keeps the tail where it was.
pub proof fn grow_then_slither_extends(before: Snake, grown: Snake, after: Snake)
    requires
        before.wf(),
        grown.spec_digesting(),
        grown.spec_body() == before.spec_body(),
        grown.spec_direction() == before.spec_direction(),
        after.spec_body() == next_body(
            grown.spec_body(),
            grown.spec_direction(),
            grown.spec_digesting(),
        ),
    ensures
        after.spec_body().len() == before.spec_body().len() + 1,
        after.spec_body().last() == before.spec_body().last(),
{
}

} // verus!

use vstd::prelude::*;

use crate::point::Point;

verus! {

/// `q` is the cell below `p`.
pub open spec fn is_below(p: Point, q: Point) -> bool {
    q.x == p.x && q.y == p.y + 1
}

/// `q` is the cell right of `p`.
pub open spec fn is_right_of(p: Point, q: Point) -> bool {
    q.y == p.y && q.x == p.x + 1
}

/// `q` is the cell above `p`; on the top row that is `p` itself.
pub open spec fn is_above(p: Point, q: Point) -> bool {
    if p.y == 0 {
        q == p
    } else {
        q.x == p.x && q.y + 1 == p.y
    }
}

/// `q` is the cell left of `p`; in the leftmost column that is `p` itself.
pub open spec fn is_left_of(p: Point, q: Point) -> bool {
    if p.x == 0 {
        q == p
    } else {
        q.y == p.y && q.x + 1 == p.x
    }
}

/// The glyph drawn for the segment at `body`, given the segment before it
/// (nearer the head) and the one after it. The head is `O`; a straight
/// segment is a double line along its axis; a bend is the corner joining
/// its two neighbours.
pub open spec fn glyph_of(previous: Option<Point>, body: Point, next: Option<Point>) -> char {
    match previous {
        None => 'O',
        Some(pr) => match next {
            None => if pr.y == body.y {
                '═'
            } else {
                '║'
            },
            Some(nx) => if pr.x == nx.x {
                '║'
            } else if pr.y == nx.y {
                '═'
            } else if (is_below(body, nx) && is_right_of(body, pr)) || (is_below(body, pr)
                && is_right_of(body, nx)) {
                '╔'
            } else if (is_below(body, nx) && is_left_of(body, pr)) || (is_below(body, pr)
                && is_left_of(body, nx)) {
                '╗'
            } else if (is_above(body, nx) && is_right_of(body, pr)) || (is_above(body, pr)
                && is_right_of(body, nx)) {
                '╚'
            } else {
                '╝'
            },
        },
    }
}

fn below(p: Point, q: Point) -> (r: bool)
    ensures
        r == is_below(p, q),
{
    q.x == p.x && q.y as u32 == p.y as u32 + 1
}

fn right_of(p: Point, q: Point) -> (r: bool)
    ensures
        r == is_right_of(p, q),
{
    q.y == p.y && q.x as u32 == p.x as u32 + 1
}

fn above(p: Point, q: Point) -> (r: bool)
    ensures
        r == is_above(p, q),
{
    if p.y == 0 {
        q == p
    } else {
        q.x == p.x && q.y as u32 + 1 == p.y as u32
    }
}

fn left_of(p: Point, q: Point) -> (r: bool)
    ensures
        r == is_left_of(p, q),
{
    if p.x == 0 {
        q == p
    } else {
        q.y == p.y && q.x as u32 + 1 == p.x as u32
    }
}

pub fn segment_glyph(previous: Option<Point>, body: Point, next: Option<Point>) -> (r: char)
    ensures
        r == glyph_of(previous, body, next),
{
    match previous {
        None => 'O',
        Some(pr) => match next {
            None => {
                if pr.y == body.y {
                    '═'
                } else {
                    '║'
                }
            },
            Some(nx) => {
                if pr.x == nx.x {
                    '║'
                } else if pr.y == nx.y {
                    '═'
                } else if (below(body, nx) && right_of(body, pr)) || (below(body, pr) && right_of(
                    body,
                    nx,
                )) {
                    '╔'
                } else if (below(body, nx) && left_of(body, pr)) || (below(body, pr) && left_of(
                    body,
                    nx,
                )) {
                    '╗'
                } else if (above(body, nx) && right_of(body, pr)) || (above(body, pr) && right_of(
                    body,
                    nx,
                )) {
                    '╚'
                } else {
                    '╝'
                }
            },
        },
    }
}

/// The segment before index `i` of `body`, if any.
pub open spec fn previous_of(body: Seq<Point>, i: int) -> Option<Point> {
    if i == 0 {
        None
    } else {
        Some(body[i - 1])
    }
}

/// The segment after index `i` of `body`, if any.
pub open spec fn next_of(body: Seq<Point>, i: int) -> Option<Point> {
    if i + 1 < body.len() {
        Some(body[i + 1])
    } else {
        None
    }
}

/// The glyph of every segment of `body`, head first.
pub fn body_glyphs(body: &Vec<Point>) -> (r: Vec<char>)
    ensures
        r@.len() == body@.len(),
        forall|i: int|
            0 <= i < body@.len() ==> #[trigger] r@[i] == glyph_of(
                previous_of(body@, i),
                body@[i],
                next_of(body@, i),
            ),
{
    let mut r: Vec<char> = Vec::new();
    let mut i: usize = 0;
    while i < body.len()
        invariant
            i <= body@.len(),
            r@.len() == i,
            forall|j: int|
                0 <= j < i ==> #[trigger] r@[j] == glyph_of(
                    previous_of(body@, j),
                    body@[j],
                    next_of(body@, j),
                ),
        decreases body@.len() - i,
    {
        let previous = if i == 0 {
            None
        } else {
            Some(body[i - 1])
        };
        let next = if i + 1 < body.len() {
            Some(body[i + 1])
        } else {
            None
        };
        r.push(segment_glyph(previous, body[i], next));
        i = i + 1;
    }
    r
}

} // verus!

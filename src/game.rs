use vstd::prelude::*;

use rand::Rng;
use vstd::arithmetic::div_mod::lemma_fundamental_div_mod;
use vstd::relations::injective_on;
use vstd::set_lib::{lemma_int_range, lemma_len_subset, lemma_map_size, set_int_range};

use crate::command::Command;
use crate::direction::Direction;
use crate::point::Point;
use crate::snake::{guarded_heading, initial_body, next_body, Snake};

verus! {

/// Tick interval, in milliseconds, at the lowest speed level.
pub const MAX_INTERVAL: u64 = 700;

/// Tick interval, in milliseconds, at the highest speed level.
pub const MIN_INTERVAL: u64 = 200;

/// The highest speed level.
pub const MAX_SPEED: u16 = 20;

/// Length of the snake at the start of a game.
pub const START_LENGTH: u16 = 3;

/// Relies on rand's `thread_rng().gen_range(0, bound)`: a value in
/// `[0, bound)`; it panics when the range is empty.
#[verifier::external_body]
fn random_below(bound: u16) -> (r: u16)
    requires
        bound > 0,
    ensures
        r < bound,
{
    rand::thread_rng().gen_range(0, bound)
}

pub open spec fn in_grid(p: Point, width: u16, height: u16) -> bool {
    p.x < width && p.y < height
}

pub open spec fn all_in_grid(body: Seq<Point>, width: u16, height: u16) -> bool {
    forall|i: int| 0 <= i < body.len() ==> in_grid(#[trigger] body[i], width, height)
}

/// Every cell of the grid is taken by the body.
pub open spec fn grid_full(body: Seq<Point>, width: u16, height: u16) -> bool {
    forall|p: Point| in_grid(p, width, height) ==> #[trigger] body.contains(p)
}

/// Food, if any, lies on the grid and off the body.
pub open spec fn food_fits(food: Option<Point>, body: Seq<Point>, width: u16, height: u16) -> bool {
    match food {
        Some(p) => in_grid(p, width, height) && !body.contains(p),
        None => true,
    }
}

/// The outcome of placing food: a free cell of the grid, or none only when
/// the grid is full.
pub open spec fn food_placed(food: Option<Point>, body: Seq<Point>, width: u16, height: u16) -> bool {
    match food {
        Some(p) => in_grid(p, width, height) && !body.contains(p),
        None => grid_full(body, width, height),
    }
}

/// The head, moving along `direction`, is about to leave the grid.
pub open spec fn wall_ahead(head: Point, direction: Direction, width: u16, height: u16) -> bool {
    match direction {
        Direction::Up => head.y == 0,
        Direction::Right => head.x == width - 1,
        Direction::Down => head.y == height - 1,
        Direction::Left => head.x == 0,
    }
}

/// The cell the head moves to next is a segment other than the head and the
/// tail (the tail is taken to vacate its cell).
pub open spec fn bites_itself(body: Seq<Point>, direction: Direction) -> bool {
    exists|i: int| 1 <= i < body.len() - 1 && #[trigger] body[i] == body[0].moved(direction, 1)
}

/// The score after eating once; it stops at the largest value it can hold.
pub open spec fn bumped_score(score: u16) -> u16 {
    if score < u16::MAX {
        (score + 1) as u16
    } else {
        score
    }
}

/// The number of food items eaten per speed level.
pub open spec fn level_step(width: u16, height: u16) -> int {
    (width * height) / (MAX_SPEED as int)
}

/// The speed level once the score has become `score`: one level up each
/// time the score reaches a multiple of the level step, up to the maximum.
pub open spec fn next_speed(speed: u16, score: u16, width: u16, height: u16) -> u16 {
    if score as int % level_step(width, height) == 0 && speed < MAX_SPEED {
        (speed + 1) as u16
    } else {
        speed
    }
}

/// The tick interval, in milliseconds, at speed level `speed`.
pub open spec fn interval_at(speed: u16) -> int {
    MIN_INTERVAL + ((MAX_INTERVAL - MIN_INTERVAL) / (MAX_SPEED as int)) * (MAX_SPEED - speed)
}

/// A game session on a `width` by `height` grid.
#[derive(Debug)]
pub struct Game {
    width: u16,
    height: u16,
    food: Option<Point>,
    snake: Snake,
    speed: u16,
    score: u16,
    over: bool,
}

/// What a display needs to draw one frame.
#[derive(Debug)]
pub struct Snapshot {
    pub width: u16,
    pub height: u16,
    pub body: Vec<Point>,
    pub food: Option<Point>,
    pub score: u16,
    pub speed: u16,
}

/// The first free cell of the grid in row order, or `None` when the body
/// covers the grid.
pub fn find_free_cell(snake: &Snake, width: u16, height: u16) -> (r: Option<Point>)
    ensures
        food_placed(r, snake.spec_body(), width, height),
{
    let mut y: u16 = 0;
    while y < height
        invariant
            y <= height,
            forall|p: Point| p.x < width && p.y < y ==> #[trigger] snake.spec_body().contains(p),
        decreases height - y,
    {
        let mut x: u16 = 0;
        while x < width
            invariant
                x <= width,
                y < height,
                forall|p: Point|
                    (p.x < width && p.y < y) || (p.x < x && p.y == y) ==> #[trigger] snake.spec_body().contains(p),
            decreases width - x,
        {
            let p = Point::new(x, y);
            if !snake.contains_point(&p) {
                return Some(p);
            }
            x = x + 1;
        }
        y = y + 1;
    }
    None
}

/// The cell numbered `k` when the cells of a grid `width` wide are numbered
/// row by row.
pub open spec fn cell_numbered(k: int, width: u16) -> Point {
    Point { x: (k % (width as int)) as u16, y: (k / (width as int)) as u16 }
}

/// A body with fewer segments than the grid has cells cannot cover the
/// grid, so food placement then always finds a free cell.
pub proof fn placement_has_room(body: Seq<Point>, width: u16, height: u16)
    requires
        body.len() < width * height,
    ensures
        !grid_full(body, width, height),
{
    if grid_full(body, width, height) {
        let n = width * height;
        assert(width > 0) by (nonlinear_arith)
            requires
                n == width * height,
                n > 0,
        ;
        let w = width as int;
        let cells = set_int_range(0, n);
        lemma_int_range(0, n);
        let f = |k: int| cell_numbered(k, width);
        assert forall|k: int| 0 <= k < n implies in_grid(#[trigger] cell_numbered(k, width), width, height)
            && (k % w) as u16 == k % w && (k / w) as u16 == k / w by {
            lemma_fundamental_div_mod(k, w);
            let q = k / w;
            let r = k % w;
            assert(0 <= q < height) by (nonlinear_arith)
                requires
                    k == w * q + r,
                    0 <= r < w,
                    0 <= k < w * height,
                    w > 0,
            ;
        }
        assert(injective_on(f, cells)) by {
            assert forall|a: int, b: int|
                cells.contains(a) && cells.contains(b) && #[trigger] f(a) == #[trigger] f(b) implies a == b by {
                assert(in_grid(cell_numbered(a, width), width, height));
                assert(in_grid(cell_numbered(b, width), width, height));
                lemma_fundamental_div_mod(a, w);
                lemma_fundamental_div_mod(b, w);
            }
        }
        lemma_map_size(cells, cells.map(f), f);
        assert(cells.map(f).subset_of(body.to_set())) by {
            assert forall|p: Point| cells.map(f).contains(p) implies body.to_set().contains(p) by {
                let k = choose|k: int| cells.contains(k) && f(k) == p;
                assert(in_grid(cell_numbered(k, width), width, height));
                assert(body.contains(p));
            }
        }
        lemma_len_subset(cells.map(f), body.to_set());
        body.lemma_cardinality_of_set();
    }
}

/// A step from a cell of the grid that does not run into a wall lands on
/// the grid.
proof fn lemma_step_in_grid(head: Point, direction: Direction, width: u16, height: u16)
    requires
        in_grid(head, width, height),
        !wall_ahead(head, direction, width, height),
    ensures
        head.can_move(direction, 1),
        in_grid(head.moved(direction, 1), width, height),
        head.adjacent(head.moved(direction, 1)),
{
}

/// A cell off the body and off the new head is off the body after the advance.
proof fn lemma_next_body_avoids(body: Seq<Point>, direction: Direction, digesting: bool, p: Point)
    requires
        body.len() >= 1,
        !body.contains(p),
        p != body[0].moved(direction, 1),
    ensures
        !next_body(body, direction, digesting).contains(p),
{
    let nb = next_body(body, direction, digesting);
    if nb.contains(p) {
        let i = choose|i: int| 0 <= i < nb.len() && nb[i] == p;
        assert(nb[i] == body[i - 1]);
    }
}

/// The body after an advance stays on the grid when the head does.
proof fn lemma_next_body_in_grid(
    body: Seq<Point>,
    direction: Direction,
    digesting: bool,
    width: u16,
    height: u16,
)
    requires
        body.len() >= 1,
        all_in_grid(body, width, height),
        in_grid(body[0].moved(direction, 1), width, height),
    ensures
        all_in_grid(next_body(body, direction, digesting), width, height),
{
    let nb = next_body(body, direction, digesting);
    assert forall|i: int| 0 <= i < nb.len() implies in_grid(#[trigger] nb[i], width, height) by {
        if i > 0 {
            assert(nb[i] == body[i - 1]);
        }
    }
}

/// A snake of the starting length, centred on a grid of at least five
/// cells each way, lies on the grid.
proof fn lemma_start_in_grid(width: u16, height: u16, direction: Direction)
    requires
        width >= 5,
        height >= 5,
    ensures
        (Point { x: width / 2, y: height / 2 }).can_move(direction.spec_opposite(), START_LENGTH - 1),
        all_in_grid(
            initial_body(Point { x: width / 2, y: height / 2 }, START_LENGTH as nat, direction),
            width,
            height,
        ),
        width * height >= MAX_SPEED,
{
    let start = Point { x: width / 2, y: height / 2 };
    let body = initial_body(start, START_LENGTH as nat, direction);
    assert forall|i: int| 0 <= i < body.len() implies in_grid(#[trigger] body[i], width, height) by {
        assert(body[i] == start.moved(direction.spec_opposite(), i));
    }
    assert(width * height >= 25) by (nonlinear_arith)
        requires
            width >= 5,
            height >= 5,
    ;
}

impl Game {
    pub closed spec fn spec_width(&self) -> u16 {
        self.width
    }

    pub closed spec fn spec_height(&self) -> u16 {
        self.height
    }

    pub closed spec fn spec_food(&self) -> Option<Point> {
        self.food
    }

    pub closed spec fn spec_snake(&self) -> Snake {
        self.snake
    }

    pub closed spec fn spec_speed(&self) -> u16 {
        self.speed
    }

    pub closed spec fn spec_score(&self) -> u16 {
        self.score
    }

    pub closed spec fn spec_over(&self) -> bool {
        self.over
    }

    /// The body of the snake, head first.
    pub open spec fn body(&self) -> Seq<Point> {
        self.spec_snake().spec_body()
    }

    /// The state is sound whatever the food: the snake is well formed and
    /// on the grid, the grid is large enough for a level step, and the
    /// speed is within bounds.
    pub open spec fn grid_ok(&self) -> bool {
        &&& self.spec_snake().wf()
        &&& all_in_grid(self.body(), self.spec_width(), self.spec_height())
        &&& self.spec_width() * self.spec_height() >= MAX_SPEED
        &&& self.spec_speed() <= MAX_SPEED
    }

    pub open spec fn wf(&self) -> bool {
        &&& self.grid_ok()
        &&& food_fits(self.spec_food(), self.body(), self.spec_width(), self.spec_height())
    }

    /// Puts the food at `candidate` if that cell is on the grid and off the
    /// snake; says whether it did.
    pub fn offer_food(&mut self, candidate: Point) -> (r: bool)
        requires
            old(self).grid_ok(),
        ensures
            r == (in_grid(candidate, old(self).spec_width(), old(self).spec_height())
                && !old(self).body().contains(candidate)),
            final(self).spec_food() == if r {
                Some(candidate)
            } else {
                old(self).spec_food()
            },
            final(self).spec_width() == old(self).spec_width(),
            final(self).spec_height() == old(self).spec_height(),
            final(self).spec_snake() == old(self).spec_snake(),
            final(self).spec_speed() == old(self).spec_speed(),
            final(self).spec_score() == old(self).spec_score(),
            final(self).spec_over() == old(self).spec_over(),
    {
        if candidate.x < self.width && candidate.y < self.height && !self.snake.contains_point(
            &candidate,
        ) {
            self.food = Some(candidate);
            true
        } else {
            false
        }
    }

    /// Places the food on a free cell picked at random; after as many
    /// misses as the grid has cells, takes the first free cell instead, and
    /// leaves no food when the grid is full.
    pub fn place_food(&mut self)
        requires
            old(self).grid_ok(),
        ensures
            final(self).wf(),
            food_placed(final(self).spec_food(), final(self).body(), final(self).spec_width(), final(self).spec_height()),
            final(self).spec_width() == old(self).spec_width(),
            final(self).spec_height() == old(self).spec_height(),
            final(self).spec_snake() == old(self).spec_snake(),
            final(self).spec_speed() == old(self).spec_speed(),
            final(self).spec_score() == old(self).spec_score(),
            final(self).spec_over() == old(self).spec_over(),
    {
        let ghost start = *self;
        let width = self.width;
        let height = self.height;
        assert(width > 0 && height > 0) by (nonlinear_arith)
            requires
                width * height >= MAX_SPEED,
        ;
        assert((width as int) * (height as int) <= 65535 * 65535) by (nonlinear_arith)
            requires
                width <= 65535,
                height <= 65535,
        ;
        let cells: u32 = (width as u32) * (height as u32);
        let mut attempts: u32 = 0;
        while attempts < cells
            invariant
                *self == start,
                start == *old(self),
                start.grid_ok(),
                width == start.spec_width(),
                height == start.spec_height(),
                width > 0,
                height > 0,
            decreases cells - attempts,
        {
            let candidate = Point::new(random_below(width), random_below(height));
            if self.offer_food(candidate) {
                return;
            }
            attempts = attempts + 1;
        }
        self.food = find_free_cell(&self.snake, width, height);
    }
    /// The snake's next move runs into a wall or into its own body.
    pub open spec fn collision_ahead(&self) -> bool {
        let dir = self.spec_snake().spec_direction();
        wall_ahead(self.body()[0], dir, self.spec_width(), self.spec_height())
            || bites_itself(self.body(), dir)
    }

    /// A game on a `width` by `height` grid with a snake of the starting
    /// length centred on it and heading `direction`; no food is placed yet.
    pub fn with_direction(width: u16, height: u16, direction: Direction) -> (r: Game)
        requires
            width >= 5,
            height >= 5,
        ensures
            r.wf(),
            r.spec_width() == width,
            r.spec_height() == height,
            r.body() == initial_body(
                Point { x: width / 2, y: height / 2 },
                START_LENGTH as nat,
                direction,
            ),
            r.spec_snake().spec_direction() == direction,
            !r.spec_snake().spec_digesting(),
            r.spec_food() == None::<Point>,
            r.spec_speed() == 0,
            r.spec_score() == 0,
            !r.spec_over(),
    {
        proof {
            lemma_start_in_grid(width, height, direction);
        }
        let snake = Snake::new(Point::new(width / 2, height / 2), START_LENGTH, direction);
        Game { width, height, food: None, snake, speed: 0, score: 0, over: false }
    }

    /// Like `with_direction`, with the heading picked at random.
    pub fn new(width: u16, height: u16) -> (r: Game)
        requires
            width >= 5,
            height >= 5,
        ensures
            r.wf(),
            r.spec_width() == width,
            r.spec_height() == height,
            r.body() == initial_body(
                Point { x: width / 2, y: height / 2 },
                START_LENGTH as nat,
                r.spec_snake().spec_direction(),
            ),
            !r.spec_snake().spec_digesting(),
            r.spec_food() == None::<Point>,
            r.spec_speed() == 0,
            r.spec_score() == 0,
            !r.spec_over(),
    {
        let direction = match random_below(4) {
            0 => Direction::Up,
            1 => Direction::Right,
            2 => Direction::Down,
            _ => Direction::Left,
        };
        Game::with_direction(width, height, direction)
    }

    /// The tick interval in milliseconds at the current speed level.
    pub fn calculate_interval(&self) -> (r: u64)
        requires
            self.grid_ok(),
        ensures
            r == interval_at(self.spec_speed()),
    {
        let speed: u64 = (MAX_SPEED - self.speed) as u64;
        let per_level: u64 = (MAX_INTERVAL - MIN_INTERVAL) / (MAX_SPEED as u64);
        assert(per_level * speed <= 25 * 20) by (nonlinear_arith)
            requires
                per_level == 500u64 / 20u64,
                speed <= 20,
        ;
        MIN_INTERVAL + per_level * speed
    }

    /// Whether the head is on the edge of the grid that it is heading for.
    pub fn has_collided_with_wall(&self) -> (r: bool)
        requires
            self.grid_ok(),
        ensures
            r == wall_ahead(
                self.body()[0],
                self.spec_snake().spec_direction(),
                self.spec_width(),
                self.spec_height(),
            ),
    {
        let head = self.snake.get_head_point();
        match self.snake.get_direction() {
            Direction::Up => head.y == 0,
            Direction::Right => head.x == self.width - 1,
            Direction::Down => head.y == self.height - 1,
            Direction::Left => head.x == 0,
        }
    }

    /// Whether the next head cell is a segment other than the head and the
    /// tail; asked only when no wall is ahead.
    pub fn has_bitten_itself(&self) -> (r: bool)
        requires
            self.grid_ok(),
            !wall_ahead(
                self.body()[0],
                self.spec_snake().spec_direction(),
                self.spec_width(),
                self.spec_height(),
            ),
        ensures
            r == bites_itself(self.body(), self.spec_snake().spec_direction()),
    {
        let direction = self.snake.get_direction();
        let head = self.snake.get_head_point();
        proof {
            lemma_step_in_grid(head, direction, self.width, self.height);
        }
        let next = head.transform(direction, 1);
        let body = self.snake.get_body_points();
        let mut i: usize = 1;
        while i < body.len() - 1
            invariant
                1 <= i <= body@.len(),
                body@ == self.body(),
                body@.len() >= 1,
                direction == self.spec_snake().spec_direction(),
                next == body@[0].moved(direction, 1),
                forall|j: int| 1 <= j < i && j < body@.len() - 1 ==> body@[j] != next,
            decreases body@.len() - i,
        {
            if body[i] == next {
                assert(self.body()[i as int] == self.body()[0].moved(direction, 1));
                return true;
            }
            i = i + 1;
        }
        false
    }

    /// Applies a command received during a tick whose heading was `heading`
    /// when it began: a quit ends the game; a turn that is neither that
    /// heading nor its reverse becomes the snake's heading.
    pub fn handle_command(&mut self, command: Command, heading: Direction)
        requires
            old(self).wf(),
        ensures
            final(self).wf(),
            final(self).spec_width() == old(self).spec_width(),
            final(self).spec_height() == old(self).spec_height(),
            final(self).spec_food() == old(self).spec_food(),
            final(self).spec_speed() == old(self).spec_speed(),
            final(self).spec_score() == old(self).spec_score(),
            final(self).body() == old(self).body(),
            final(self).spec_snake().spec_digesting() == old(self).spec_snake().spec_digesting(),
            final(self).spec_over() == (old(self).spec_over() || command == Command::Quit),
            final(self).spec_snake().spec_direction() == match command {
                Command::Turn(t) => if t != heading && t != heading.spec_opposite() {
                    guarded_heading(old(self).spec_snake().spec_direction(), t)
                } else {
                    old(self).spec_snake().spec_direction()
                },
                Command::Quit => old(self).spec_snake().spec_direction(),
            },
    {
        match command {
            Command::Quit => {
                self.over = true;
            },
            Command::Turn(towards) => {
                if heading != towards && heading.opposite() != towards {
                    self.snake.set_direction(towards);
                }
            },
        }
    }

    /// Ends one tick. A finished game stays as it is. A wall or the body
    /// ahead ends the game. Otherwise the snake advances; if its head lands
    /// on the food it starts digesting, new food is placed, the score goes
    /// up by one and the speed level is reconsidered.
    pub fn advance(&mut self)
        requires
            old(self).wf(),
        ensures
            final(self).wf(),
            final(self).spec_width() == old(self).spec_width(),
            final(self).spec_height() == old(self).spec_height(),
            old(self).spec_over() || old(self).collision_ahead() ==> {
                &&& final(self).spec_over()
                &&& final(self).spec_snake() == old(self).spec_snake()
                &&& final(self).spec_food() == old(self).spec_food()
                &&& final(self).spec_score() == old(self).spec_score()
                &&& final(self).spec_speed() == old(self).spec_speed()
            },
            !old(self).spec_over() && !old(self).collision_ahead() ==> {
                let moved = next_body(
                    old(self).body(),
                    old(self).spec_snake().spec_direction(),
                    old(self).spec_snake().spec_digesting(),
                );
                let ate = old(self).spec_food() == Some(moved[0]);
                &&& !final(self).spec_over()
                &&& final(self).body() == moved
                &&& final(self).spec_snake().spec_direction() == old(self).spec_snake().spec_direction()
                &&& final(self).spec_snake().spec_digesting() == ate
                &&& ate ==> {
                    &&& final(self).spec_score() == bumped_score(old(self).spec_score())
                    &&& final(self).spec_speed() == next_speed(
                        old(self).spec_speed(),
                        bumped_score(old(self).spec_score()),
                        old(self).spec_width(),
                        old(self).spec_height(),
                    )
                    &&& food_placed(final(self).spec_food(), moved, old(self).spec_width(), old(self).spec_height())
                }
                &&& !ate ==> {
                    &&& final(self).spec_score() == old(self).spec_score()
                    &&& final(self).spec_speed() == old(self).spec_speed()
                    &&& final(self).spec_food() == old(self).spec_food()
                }
            },
    {
        if self.over {
            return;
        }
        if self.has_collided_with_wall() || self.has_bitten_itself() {
            self.over = true;
            return;
        }
        let ghost before = *self;
        proof {
            lemma_step_in_grid(self.body()[0], self.spec_snake().spec_direction(), self.width, self.height);
            lemma_next_body_in_grid(
                self.body(),
                self.spec_snake().spec_direction(),
                self.spec_snake().spec_digesting(),
                self.width,
                self.height,
            );
        }
        self.snake.slither();
        let head = self.snake.get_head_point();
        let ate = match self.food {
            Some(food) => head == food,
            None => false,
        };
        if ate {
            self.snake.grow();
            self.place_food();
            if self.score < u16::MAX {
                self.score = self.score + 1;
            }
            assert((self.width as int) * (self.height as int) <= 65535 * 65535) by (nonlinear_arith)
                requires
                    self.width <= 65535,
                    self.height <= 65535,
            ;
            let area: u32 = (self.width as u32) * (self.height as u32);
            let step: u32 = area / (MAX_SPEED as u32);
            assert(step > 0);
            if (self.score as u32) % step == 0 && self.speed < MAX_SPEED {
                self.speed = self.speed + 1;
            }
        } else {
            proof {
                if let Some(food) = before.spec_food() {
                    lemma_next_body_avoids(
                        before.body(),
                        before.spec_snake().spec_direction(),
                        before.spec_snake().spec_digesting(),
                        food,
                    );
                }
            }
        }
    }

    /// The state a display needs to draw the current frame.
    pub fn snapshot(&self) -> (r: Snapshot)
        ensures
            r.width == self.spec_width(),
            r.height == self.spec_height(),
            r.body@ == self.body(),
            r.food == self.spec_food(),
            r.score == self.spec_score(),
            r.speed == self.spec_speed(),
    {
        Snapshot {
            width: self.width,
            height: self.height,
            body: self.snake.get_body_points(),
            food: self.food,
            score: self.score,
            speed: self.speed,
        }
    }

    pub fn width(&self) -> (r: u16)
        ensures
            r == self.spec_width(),
    {
        self.width
    }

    pub fn height(&self) -> (r: u16)
        ensures
            r == self.spec_height(),
    {
        self.height
    }

    pub fn food(&self) -> (r: Option<Point>)
        ensures
            r == self.spec_food(),
    {
        self.food
    }

    pub fn snake(&self) -> (r: &Snake)
        ensures
            *r == self.spec_snake(),
    {
        &self.snake
    }

    pub fn score(&self) -> (r: u16)
        ensures
            r == self.spec_score(),
    {
        self.score
    }

    pub fn speed(&self) -> (r: u16)
        ensures
            r == self.spec_speed(),
    {
        self.speed
    }

    pub fn is_over(&self) -> (r: bool)
        ensures
            r == self.spec_over(),
    {
        self.over
    }
}

} // verus!

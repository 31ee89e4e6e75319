//! A grid-based snake game on a toroidal board.
//!
//! The board is a `width` by `height` grid that wraps around at the edges.
//! The snake is an ordered sequence of cells, tail first and head last; it
//! advances one cell per tick in its current direction, grows when its head
//! lands on the food cell, and dies when any cell of its body is visited
//! twice. Food placement is random in the running game, so the fresh food
//! coordinates are taken as plain arguments here.

use vstd::prelude::*;

verus! {

/// A cell of the board, given by its column `x` and row `y`.
#[derive(Debug, Clone, Copy, PartialEq, Eq, Structural)]
pub struct Coordinate {
    pub x: u16,
    pub y: u16,
}

impl Coordinate {
    pub fn new(x: u16, y: u16) -> (c: Coordinate)
        ensures
            c == (Coordinate { x, y }),
    {
        Coordinate { x, y }
    }
}

/// The direction the snake moves in on the next tick.
#[derive(Debug, Clone, Copy, PartialEq, Eq, Structural)]
pub enum Direction {
    North,
    South,
    East,
    West,
}

/// Whether `c` lies on a board of the given dimensions.
pub open spec fn in_bounds(c: Coordinate, width: u16, height: u16) -> bool {
    c.x < width && c.y < height
}

/// `v + 1`, wrapping from `limit - 1` back to `0`.
pub open spec fn wrap_inc(v: u16, limit: u16) -> u16
    recommends
        limit > 0,
{
    (((v + 1) as int) % (limit as int)) as u16
}

/// `v - 1`, wrapping from `0` back to `limit - 1`.
pub open spec fn wrap_dec(v: u16, limit: u16) -> u16
    recommends
        limit > 0,
{
    ((v + limit - 1) as int % (limit as int)) as u16
}

/// The cell the head advances to: one step in `dir`, wrapping modulo the
/// board dimensions.
pub open spec fn next_head(head: Coordinate, dir: Direction, width: u16, height: u16) -> Coordinate {
    match dir {
        Direction::East => Coordinate { x: wrap_inc(head.x, width), y: head.y },
        Direction::West => Coordinate { x: wrap_dec(head.x, width), y: head.y },
        Direction::North => Coordinate { x: head.x, y: wrap_dec(head.y, height) },
        Direction::South => Coordinate { x: head.x, y: wrap_inc(head.y, height) },
    }
}

/// The new head always lies on the board, whatever the direction and the
/// board size: movement wraps around the edges.
pub proof fn lemma_next_head_in_bounds(head: Coordinate, dir: Direction, width: u16, height: u16)
    requires
        width > 0,
        height > 0,
        in_bounds(head, width, height),
    ensures
        in_bounds(next_head(head, dir, width, height), width, height),
{
    assert(((head.x + 1) as int) % (width as int) < width as int) by (nonlinear_arith)
        requires width > 0;
    assert((head.x + width - 1) as int % (width as int) < width as int) by (nonlinear_arith)
        requires width > 0;
    assert(((head.y + 1) as int) % (height as int) < height as int) by (nonlinear_arith)
        requires height > 0;
    assert((head.y + height - 1) as int % (height as int) < height as int) by (nonlinear_arith)
        requires height > 0;
}

/// The fixed three-cell snake every game starts with, tail first: it sits
/// along the top row and moves East.
pub open spec fn initial_snake() -> Seq<Coordinate> {
    seq![
        Coordinate { x: 0, y: 0 },
        Coordinate { x: 1, y: 0 },
        Coordinate { x: 2, y: 0 },
    ]
}

/// Whether some cell occurs twice in `s`: the snake has run into itself.
pub open spec fn has_duplicate(s: Seq<Coordinate>) -> bool {
    exists|i: int, j: int|
        0 <= i < s.len() && 0 <= j < s.len() && i != j && s[i] == s[j]
}

/// The whole game: board dimensions, the food cell, the snake body (tail
/// first, head last) and the direction of the next step.
///
/// The `direction` field is written directly by the key-press handler, as
/// the running game does; every change of the other fields goes through the
/// methods below, which keep [`SnakeGame::wf`].
#[derive(Debug, Clone)]
pub struct SnakeGame {
    pub width: u16,
    pub height: u16,
    pub food: Option<Coordinate>,
    pub snake: std::collections::VecDeque<Coordinate>,
    pub direction: Direction,
}

impl SnakeGame {
    /// Well-formedness: the board is big enough for the initial snake, the
    /// snake is non-empty and on the board, and the food cell exists and is
    /// on the board. Cells of the snake need not be distinct: a duplicate is
    /// exactly what `move_snake` reports as death.
    pub open spec fn wf(self) -> bool {
        &&& self.width >= 3
        &&& self.height >= 1
        &&& self.snake@.len() > 0
        &&& forall|i: int|
            0 <= i < self.snake@.len() ==> in_bounds(
                #[trigger] self.snake@[i],
                self.width,
                self.height,
            )
        &&& match self.food {
            Some(f) => in_bounds(f, self.width, self.height),
            None => false,
        }
    }

    /// A fresh game: the initial three-cell snake moving East, with the food
    /// at the given cell. The running game draws the food cell at random, so
    /// it is passed in here.
    pub fn new(width: u16, height: u16, food_x: u16, food_y: u16) -> (game: SnakeGame)
        requires
            width >= 3,
            height >= 1,
            food_x < width,
            food_y < height,
        ensures
            game.wf(),
            game.width == width,
            game.height == height,
            game.snake@ == initial_snake(),
            game.direction == Direction::East,
            game.food == Some(Coordinate { x: food_x, y: food_y }),
    {
        let mut snake: std::collections::VecDeque<Coordinate> =
            std::collections::VecDeque::new();
        snake.push_back(Coordinate::new(0, 0));
        snake.push_back(Coordinate::new(1, 0));
        snake.push_back(Coordinate::new(2, 0));
        proof {
            assert(snake@ =~= initial_snake());
        }
        SnakeGame {
            width,
            height,
            food: Some(Coordinate::new(food_x, food_y)),
            snake,
            direction: Direction::East,
        }
    }

    /// Put the food at the given cell, leaving everything else unchanged.
    /// The running game picks the cell at random, without excluding cells
    /// the snake occupies.
    pub fn place_food(&mut self, food_x: u16, food_y: u16)
        requires
            food_x < old(self).width,
            food_y < old(self).height,
        ensures
            final(self).food == Some(Coordinate { x: food_x, y: food_y }),
            final(self).width == old(self).width,
            final(self).height == old(self).height,
            final(self).snake == old(self).snake,
            final(self).direction == old(self).direction,
    {
        self.food = Some(Coordinate::new(food_x, food_y));
    }

    /// The cell the head will move to on the next tick.
    pub open spec fn spec_next_head(self) -> Coordinate
        recommends
            self.snake@.len() > 0,
            self.width > 0,
            self.height > 0,
    {
        next_head(self.snake@.last(), self.direction, self.width, self.height)
    }

    /// Whether the next step lands the head on the food.
    pub open spec fn eats(self) -> bool {
        self.food == Some(self.spec_next_head())
    }

    /// The snake body after one step: the new head is appended, and unless
    /// the food was eaten the tail cell is removed first.
    pub open spec fn moved_snake(self) -> Seq<Coordinate>
        recommends
            self.snake@.len() > 0,
    {
        if self.eats() {
            self.snake@.push(self.spec_next_head())
        } else {
            self.snake@.subrange(1, self.snake@.len() as int).push(self.spec_next_head())
        }
    }

    /// Advance the snake one step in its current direction, wrapping at the
    /// board edges. If the new head lands on the food, the snake grows by
    /// one cell and the food moves to `(food_x, food_y)` (drawn at random by
    /// the running game); otherwise the tail cell is removed and the food
    /// stays. Returns `true` if the snake is still alive, `false` if the
    /// step made any cell of the body occur twice.
    pub fn move_snake(&mut self, food_x: u16, food_y: u16) -> (alive: bool)
        requires
            old(self).wf(),
            food_x < old(self).width,
            food_y < old(self).height,
        ensures
            final(self).wf(),
            final(self).width == old(self).width,
            final(self).height == old(self).height,
            final(self).direction == old(self).direction,
            final(self).snake@ == old(self).moved_snake(),
            old(self).eats() ==> final(self).snake@.len() == old(self).snake@.len() + 1
                && final(self).food == Some(Coordinate { x: food_x, y: food_y }),
            !old(self).eats() ==> final(self).snake@.len() == old(self).snake@.len()
                && final(self).food == old(self).food,
            alive == !has_duplicate(final(self).snake@),
    {
        let head = self.snake[self.snake.len() - 1];

        let new_head = match self.direction {
            Direction::East => Coordinate::new(wrap_add_one(head.x, self.width), head.y),
            Direction::West => Coordinate::new(wrap_sub_one(head.x, self.width), head.y),
            Direction::North => Coordinate::new(head.x, wrap_sub_one(head.y, self.height)),
            Direction::South => Coordinate::new(head.x, wrap_add_one(head.y, self.height)),
        };
        proof {
            assert(new_head == old(self).spec_next_head());
        }

        let ate = match self.food {
            Some(f) => f == new_head,
            None => false,
        };
        if ate {
            self.place_food(food_x, food_y);
        } else {
            self.snake.pop_front();
        }
        self.snake.push_back(new_head);

        contains_no_duplicate(&self.snake)
    }

    /// Restore the fixed three-cell starting snake and direction East, and
    /// put the food at the given cell (drawn at random by the running game).
    /// The score is back to 3 with it, since the score is the snake's
    /// length.
    pub fn reset(&mut self, food_x: u16, food_y: u16)
        requires
            old(self).wf(),
            food_x < old(self).width,
            food_y < old(self).height,
        ensures
            final(self).wf(),
            final(self).width == old(self).width,
            final(self).height == old(self).height,
            final(self).snake@ == initial_snake(),
            final(self).snake@.len() == 3,
            final(self).direction == Direction::East,
            final(self).food == Some(Coordinate { x: food_x, y: food_y }),
    {
        let mut snake: std::collections::VecDeque<Coordinate> =
            std::collections::VecDeque::new();
        snake.push_back(Coordinate::new(0, 0));
        snake.push_back(Coordinate::new(1, 0));
        snake.push_back(Coordinate::new(2, 0));
        proof {
            assert(snake@ =~= initial_snake());
        }
        self.snake = snake;
        self.direction = Direction::East;
        self.place_food(food_x, food_y);
    }

    /// One tick of the game loop: advance the snake; if the step ran the
    /// snake into itself, start the game over. `(food_x, food_y)` is the
    /// food cell used if the step eats the food, `(reset_food_x,
    /// reset_food_y)` the one used after a restart; the running game draws
    /// both at random. Returns `true` if the snake survived the tick.
    ///
    /// Until a collision the snake never shrinks: it keeps its length or
    /// grows by one. A collision puts it back to the three starting cells.
    pub fn tick(
        &mut self,
        food_x: u16,
        food_y: u16,
        reset_food_x: u16,
        reset_food_y: u16,
    ) -> (survived: bool)
        requires
            old(self).wf(),
            food_x < old(self).width,
            food_y < old(self).height,
            reset_food_x < old(self).width,
            reset_food_y < old(self).height,
        ensures
            final(self).wf(),
            final(self).width == old(self).width,
            final(self).height == old(self).height,
            survived == !has_duplicate(old(self).moved_snake()),
            survived ==> final(self).snake@ == old(self).moved_snake()
                && final(self).snake@.len() >= old(self).snake@.len()
                && final(self).direction == old(self).direction
                && final(self).food == (if old(self).eats() {
                    Some(Coordinate { x: food_x, y: food_y })
                } else {
                    old(self).food
                }),
            !survived ==> final(self).snake@ == initial_snake()
                && final(self).snake@.len() == 3
                && final(self).direction == Direction::East
                && final(self).food == Some(Coordinate { x: reset_food_x, y: reset_food_y }),
    {
        let alive = self.move_snake(food_x, food_y);
        if !alive {
            self.reset(reset_food_x, reset_food_y);
        }
        alive
    }

    /// The snake's length; the game scores one point per cell.
    pub fn get_score(&self) -> (score: usize)
        ensures
            score == self.snake@.len(),
    {
        self.snake.len()
    }

    /// The head: the last cell of the body.
    pub fn snake_head(&self) -> (head: Coordinate)
        requires
            self.snake@.len() > 0,
        ensures
            head == self.snake@.last(),
    {
        self.snake[self.snake.len() - 1]
    }
}

/// The direction a key code selects: the four arrow keys, left, up, right
/// and down in that order, map to West, North, East and South.
pub open spec fn spec_direction_for_key(key_code: u32) -> Option<Direction> {
    if key_code == 37 {
        Some(Direction::West)
    } else if key_code == 38 {
        Some(Direction::North)
    } else if key_code == 39 {
        Some(Direction::East)
    } else if key_code == 40 {
        Some(Direction::South)
    } else {
        None
    }
}

/// Map a key code to the direction it selects; any other key selects
/// nothing. The key-press handler writes the selected direction straight
/// into the game, with no restriction against a 180-degree reversal.
pub fn direction_for_key(key_code: u32) -> (d: Option<Direction>)
    ensures
        d == spec_direction_for_key(key_code),
{
    match key_code {
        37 => Some(Direction::West),
        38 => Some(Direction::North),
        39 => Some(Direction::East),
        40 => Some(Direction::South),
        _ => None,
    }
}

/// The full pairwise scan of the body: `true` exactly when no cell occurs
/// twice.
fn contains_no_duplicate(s: &std::collections::VecDeque<Coordinate>) -> (r: bool)
    ensures
        r == !has_duplicate(s@),
{
    let len = s.len();
    let mut i: usize = 0;
    while i < len
        invariant
            len == s@.len(),
            i <= len,
            forall|a: int, b: int|
                0 <= a < i && 0 <= b < s@.len() && a != b ==> s@[a] != s@[b],
        decreases len - i,
    {
        let mut j: usize = 0;
        while j < len
            invariant
                len == s@.len(),
                i < len,
                j <= len,
                forall|b: int| 0 <= b < j && b != i ==> s@[i as int] != s@[b],
            decreases len - j,
        {
            if i != j && s[i] == s[j] {
                proof {
                    assert(s@[i as int] == s@[j as int]);
                }
                return false;
            }
            j += 1;
        }
        i += 1;
    }
    proof {
        assert(!has_duplicate(s@)) by {
            if has_duplicate(s@) {
                let (a, b) = choose|a: int, b: int|
                    0 <= a < s@.len() && 0 <= b < s@.len() && a != b && s@[a] == s@[b];
                assert(s@[a] != s@[b]);
            }
        }
    }
    true
}

fn wrap_add_one(v: u16, limit: u16) -> (r: u16)
    requires
        v < limit,
    ensures
        r == wrap_inc(v, limit),
        r < limit,
{
    proof {
        if v + 1 == limit {
            assert((limit as int) % (limit as int) == 0) by (nonlinear_arith)
                requires limit > 0;
        } else {
            assert(((v + 1) as int) % (limit as int) == (v + 1) as int) by (nonlinear_arith)
                requires 0 <= ((v + 1) as int) < (limit as int);
        }
    }
    if v + 1 == limit {
        0
    } else {
        v + 1
    }
}

fn wrap_sub_one(v: u16, limit: u16) -> (r: u16)
    requires
        v < limit,
    ensures
        r == wrap_dec(v, limit),
        r < limit,
{
    proof {
        if v == 0 {
            assert(((limit - 1) as int) % (limit as int) == ((limit - 1) as int)) by (nonlinear_arith)
                requires limit > 0;
        } else {
            assert(((v + limit - 1) as int) % (limit as int) == ((v - 1) as int)) by (nonlinear_arith)
                requires 0 < v < limit;
        }
    }
    if v == 0 {
        limit - 1
    } else {
        v - 1
    }
}

} // verus!

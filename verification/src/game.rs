//! The core game state machine: positions, headings, the organism, the
//! consumable target, and the per-tick transition.

use rand::Rng;
use std::collections::VecDeque;
use vstd::prelude::*;

verus! {

/// One of the four cardinal headings.
#[derive(Debug, Clone, Copy, PartialEq, Eq, Structural)]
pub enum Direction {
    Up,
    Down,
    Left,
    Right,
}

impl Direction {
    /// The opposite heading.
    pub open spec fn spec_reverse(self) -> Direction {
        match self {
            Direction::Up => Direction::Down,
            Direction::Down => Direction::Up,
            Direction::Left => Direction::Right,
            Direction::Right => Direction::Left,
        }
    }

    pub fn reverse(&self) -> (r: Self)
        ensures
            r == self.spec_reverse(),
    {
        match self {
            Direction::Up => Direction::Down,
            Direction::Down => Direction::Up,
            Direction::Left => Direction::Right,
            Direction::Right => Direction::Left,
        }
    }
}

/// Reversing a heading twice gives the heading back: `spec_reverse` is an
/// involution.
pub proof fn lemma_reverse_involution(d: Direction)
    ensures
        d.spec_reverse().spec_reverse() == d,
{
}

/// A discrete 2-D coordinate. Coordinates are unsigned; cells with
/// `x == 0`, `y == 0`, `x == width - 1` or `y == height - 1` form the
/// grid border.
#[derive(Debug, Clone, Copy, PartialEq, Eq, Structural)]
pub struct Position {
    pub x: u16,
    pub y: u16,
}

impl Position {
    /// Whether a unit step in heading `d` stays representable in `u16`
    /// coordinates (no underflow below 0, no overflow past `u16::MAX`).
    pub open spec fn can_step(self, d: Direction) -> bool {
        match d {
            Direction::Up => self.y > 0,
            Direction::Down => self.y < u16::MAX,
            Direction::Left => self.x > 0,
            Direction::Right => self.x < u16::MAX,
        }
    }

    /// The position one unit step away in heading `d`.
    pub open spec fn spec_move(self, d: Direction) -> Position
        recommends
            self.can_step(d),
    {
        match d {
            Direction::Up => Position { x: self.x, y: (self.y - 1) as u16 },
            Direction::Down => Position { x: self.x, y: (self.y + 1) as u16 },
            Direction::Left => Position { x: (self.x - 1) as u16, y: self.y },
            Direction::Right => Position { x: (self.x + 1) as u16, y: self.y },
        }
    }

    /// Whether this position lies on the border of a `width` by `height`
    /// grid.
    pub open spec fn spec_on_border(self, width: u16, height: u16) -> bool {
        self.x == 0 || self.y == height - 1 || self.x == width - 1 || self.y == 0
    }

    pub fn new(x: u16, y: u16) -> (r: Self)
        ensures
            r == (Position { x, y }),
    {
        Self { x, y }
    }

    pub fn is_on_border(&self, width: u16, height: u16) -> (r: bool)
        requires
            width >= 1,
            height >= 1,
        ensures
            r == self.spec_on_border(width, height),
    {
        self.x == 0 || self.y == height - 1 || self.x == width - 1 || self.y == 0
    }

    /// Translate one unit step in `direction`. A step that would leave the
    /// representable coordinate range is a logic error in the caller and is
    /// ruled out here rather than silently wrapped.
    pub fn move_direction(&self, direction: Direction) -> (r: Position)
        requires
            self.can_step(direction),
        ensures
            r == self.spec_move(direction),
    {
        let mut next = *self;
        match direction {
            Direction::Up => next.y = next.y - 1,
            Direction::Down => next.y = next.y + 1,
            Direction::Left => next.x = next.x - 1,
            Direction::Right => next.x = next.x + 1,
        }
        next
    }
}

/// The player-controlled organism: a leading head cell, the trailing body
/// cells (front = most recently vacated by the head, back = oldest), and
/// the current heading.
#[derive(Debug)]
pub struct Snake {
    pub head: Position,
    pub tail: VecDeque<Position>,
    pub direction: Direction,
}

impl Snake {
    pub fn new(initial_x: u16, initial_y: u16) -> (r: Self)
        ensures
            r.head == (Position { x: initial_x, y: initial_y }),
            r.tail@ == Seq::<Position>::empty(),
            r.direction == Direction::Right,
    {
        Self {
            head: Position::new(initial_x, initial_y),
            tail: VecDeque::new(),
            direction: Direction::Right,
        }
    }

    /// One non-growth step: the head advances one cell along the heading;
    /// a non-empty body shifts after it (the vacated head cell joins the
    /// front, the oldest cell leaves the back), so its length is kept; an
    /// empty body stays empty.
    pub fn move_direction(&mut self)
        requires
            old(self).head.can_step(old(self).direction),
        ensures
            final(self).direction == old(self).direction,
            final(self).head == old(self).head.spec_move(old(self).direction),
            old(self).tail@.len() == 0 ==> final(self).tail@ == old(self).tail@,
            old(self).tail@.len() > 0 ==> final(self).tail@ == seq![old(self).head]
                + old(self).tail@.drop_last(),
            final(self).tail@.len() == old(self).tail@.len(),
    {
        let old_head = self.head;
        self.head = self.head.move_direction(self.direction);

        if self.tail.len() > 0 {
            self.tail.push_front(old_head);
            self.tail.pop_back();
            proof {
                assert(self.tail@ =~= seq![old_head] + old(self).tail@.drop_last());
            }
        }
    }

    /// One growth step: the head advances one cell along the heading and
    /// the vacated head cell joins the front of the body, which grows by
    /// one; the back is untouched.
    pub fn move_and_grow(&mut self)
        requires
            old(self).head.can_step(old(self).direction),
        ensures
            final(self).direction == old(self).direction,
            final(self).head == old(self).head.spec_move(old(self).direction),
            final(self).tail@ == seq![old(self).head] + old(self).tail@,
    {
        let old_head = self.head;
        self.head = self.head.move_direction(self.direction);

        self.tail.push_front(old_head);
    }

    /// Whether the head currently coincides with some body cell.
    pub fn self_collision(&self) -> (r: bool)
        ensures
            r == self.tail@.contains(self.head),
    {
        let mut i: usize = 0;
        while i < self.tail.len()
            invariant
                0 <= i <= self.tail@.len(),
                forall|j: int| 0 <= j < i ==> self.tail@[j] != self.head,
            decreases self.tail@.len() - i,
        {
            let pos = self.tail[i];
            if pos.x == self.head.x && pos.y == self.head.y {
                assert(self.tail@[i as int] == self.head);
                return true;
            }
            i = i + 1;
        }
        false
    }
}

/// Relies on `rand::Rng::gen_range` on a `Range<u16>`: it panics on an
/// empty range and otherwise returns a value drawn uniformly from
/// `[lo, hi)`. Only the bounds are stated; which value comes back is left
/// open, so callers hold for every outcome.
#[verifier::external_body]
fn sample_range(lo: u16, hi: u16) -> (r: u16)
    requires
        lo < hi,
    ensures
        lo <= r < hi,
{
    rand::thread_rng().gen_range(lo..hi)
}

/// The consumable target: a single cell, redrawn at random strictly inside
/// the border whenever it is consumed.
#[derive(Debug)]
pub struct Food {
    pub position: Position,
}

impl Food {
    /// Whether `position` lies strictly inside the border of a `width` by
    /// `height` grid.
    pub open spec fn spec_in_interior(self, width: u16, height: u16) -> bool {
        1 <= self.position.x <= width - 2 && 1 <= self.position.y <= height - 2
    }

    /// Draw a target at a random interior cell: `1 <= x <= max_width - 2`
    /// and `1 <= y <= max_height - 2`, never on the border.
    pub fn new(max_width: u16, max_height: u16) -> (r: Self)
        requires
            max_width >= 3,
            max_height >= 3,
        ensures
            r.spec_in_interior(max_width, max_height),
    {
        let position = Position::new(
            sample_range(1, max_width - 1),
            sample_range(1, max_height - 1),
        );
        Self { position }
    }
}

/// An interior cell is never a border cell: every target drawn by
/// `Food::new` passes the border test negatively.
pub proof fn lemma_interior_not_on_border(f: Food, width: u16, height: u16)
    requires
        width >= 4,
        height >= 4,
        f.spec_in_interior(width, height),
    ensures
        !f.position.spec_on_border(width, height),
{
}

/// Immutable bounds of the playable grid: a one-cell-thick border encloses
/// the interior the organism may occupy.
#[derive(Debug, Clone, Copy, PartialEq, Eq, Structural)]
pub struct GameGrid {
    pub width: u16,
    pub height: u16,
}

impl GameGrid {
    pub fn new(width: u16, height: u16) -> (r: Self)
        ensures
            r == (GameGrid { width, height }),
    {
        Self { width, height }
    }
}

/// The immutable record of one tick: the resulting head position, the
/// heading change actually applied (if any), and whether growth occurred.
#[derive(Debug, Clone, Copy)]
pub struct Action {
    pub snake_head: Position,
    pub change_direction: Option<Direction>,
    pub must_grow: bool,
}

impl Action {
    pub fn new(snake_head: Position, change_direction: Option<Direction>, must_grow: bool) -> (r:
        Self)
        ensures
            r == (Action { snake_head, change_direction, must_grow }),
    {
        Self { snake_head, change_direction, must_grow }
    }

    /// The logical inverse of an action: heading change flipped, growth
    /// flag negated, head kept. This is a primitive for a future
    /// reversible-replay feature, not a guaranteed undo: it does not
    /// recompute the prior head position or a popped tail cell.
    pub fn reverse(action: Action) -> (r: Self)
        ensures
            r.snake_head == action.snake_head,
            r.must_grow == !action.must_grow,
            action.change_direction is None ==> r.change_direction is None,
            action.change_direction matches Some(d) ==> r.change_direction == Some(
                d.spec_reverse(),
            ),
    {
        let reverse_direction = match action.change_direction {
            Some(d) => Some(d.reverse()),
            None => None,
        };
        Self {
            snake_head: action.snake_head,
            change_direction: reverse_direction,
            must_grow: !action.must_grow,
        }
    }
}

/// Input sanitization: an accepted heading change is a pressed direction
/// that is neither the current heading (a no-op) nor its reverse (which
/// would run the organism into its own neck). Everything else is `None`.
pub open spec fn spec_sanitize(pressed: Option<Direction>, current: Direction) -> Option<
    Direction,
> {
    match pressed {
        None => None,
        Some(p) => if p == current || p == current.spec_reverse() {
            None
        } else {
            Some(p)
        },
    }
}

/// The whole game: grid bounds, organism, target, score, and the
/// append-only log of one action per tick. Mutated only by `next`.
pub struct GameState {
    pub snake: Snake,
    pub food: Food,
    pub score: u32,
    pub game_width: u16,
    pub game_height: u16,
    pub actions: Vec<Action>,
}

impl GameState {
    /// Well-formedness: the grid admits a border, a movable interior and a
    /// spawnable target; the target sits strictly inside the border; and
    /// the score equals the number of body cells (each consumed target
    /// grew exactly one cell).
    pub open spec fn wf(self) -> bool {
        &&& self.game_width >= 5
        &&& self.game_height >= 5
        &&& self.food.spec_in_interior(self.game_width, self.game_height)
        &&& self.score == self.snake.tail@.len()
    }

    /// The heading the next tick moves along: the accepted change if there
    /// is one, else the current heading.
    pub open spec fn next_heading(self, change_direction: Option<Direction>) -> Direction {
        match change_direction {
            Some(d) => d,
            None => self.snake.direction,
        }
    }

    /// The head position after the next tick.
    pub open spec fn next_head(self, change_direction: Option<Direction>) -> Position {
        self.snake.head.spec_move(self.next_heading(change_direction))
    }

    /// Whether the next tick consumes the target: the moved head lands on
    /// it.
    pub open spec fn consumes(self, change_direction: Option<Direction>) -> bool {
        self.next_head(change_direction) == self.food.position
    }

    /// Terminal state: the head is on the border, or coincides with a body
    /// cell.
    pub open spec fn spec_game_over(self) -> bool {
        self.snake.head.spec_on_border(self.game_width, self.game_height)
            || self.snake.tail@.contains(self.snake.head)
    }

    /// A fresh game: organism centered with an empty body heading right,
    /// score zero, a random interior target, and an empty action log.
    pub fn new(game_width: u16, game_height: u16) -> (r: Self)
        requires
            game_width >= 5,
            game_height >= 5,
        ensures
            r.game_width == game_width,
            r.game_height == game_height,
            r.snake.head == (Position { x: game_width / 2, y: game_height / 2 }),
            r.snake.tail@ == Seq::<Position>::empty(),
            r.snake.direction == Direction::Right,
            r.score == 0,
            r.actions@ == Seq::<Action>::empty(),
            r.wf(),
    {
        let snake = Snake::new(game_width / 2, game_height / 2);
        let food = Food::new(game_width, game_height);
        let score: u32 = 0;

        Self { snake, food, score, game_width, game_height, actions: Vec::new() }
    }

    /// Sanitize a pressed direction against the current heading, as
    /// `spec_sanitize` states: the reverse of the heading and the heading
    /// itself are rejected.
    pub fn get_action(&self, pressed: Option<Direction>) -> (r: Option<Direction>)
        ensures
            r == spec_sanitize(pressed, self.snake.direction),
    {
        match pressed {
            None => None,
            Some(p) => {
                if p == self.snake.direction || p == self.snake.direction.reverse() {
                    None
                } else {
                    Some(p)
                }
            },
        }
    }

    /// Advance the game one tick on an already sanitized heading change:
    /// apply the change, move the head one cell, grow (and redraw the
    /// target, and raise the score) exactly when the moved head lands on
    /// the target, and append the tick's action to the log. Score and body
    /// length stay equal and never decrease; on a non-growth tick the body
    /// length is unchanged.
    pub fn next(&mut self, change_direction: Option<Direction>)
        requires
            old(self).wf(),
            old(self).snake.head.can_step(old(self).next_heading(change_direction)),
            old(self).score < u32::MAX,
        ensures
            final(self).game_width == old(self).game_width,
            final(self).game_height == old(self).game_height,
            final(self).snake.direction == old(self).next_heading(change_direction),
            final(self).snake.head == old(self).next_head(change_direction),
            final(self).score == if old(self).consumes(change_direction) {
                old(self).score + 1
            } else {
                old(self).score as int
            },
            old(self).consumes(change_direction) ==> final(self).snake.tail@ == seq![
                old(self).snake.head,
            ] + old(self).snake.tail@,
            !old(self).consumes(change_direction) && old(self).snake.tail@.len() > 0
                ==> final(self).snake.tail@ == seq![old(self).snake.head]
                + old(self).snake.tail@.drop_last(),
            !old(self).consumes(change_direction) && old(self).snake.tail@.len() == 0
                ==> final(self).snake.tail@ == old(self).snake.tail@,
            old(self).consumes(change_direction) ==> final(self).food.spec_in_interior(
                old(self).game_width,
                old(self).game_height,
            ),
            !old(self).consumes(change_direction) ==> final(self).food == old(self).food,
            final(self).actions@ == old(self).actions@.push(
                Action {
                    snake_head: old(self).next_head(change_direction),
                    change_direction,
                    must_grow: old(self).consumes(change_direction),
                },
            ),
            final(self).score >= old(self).score,
            final(self).snake.tail@.len() >= old(self).snake.tail@.len(),
            !old(self).consumes(change_direction) ==> final(self).snake.tail@.len() == old(
                self).snake.tail@.len(),
            final(self).wf(),
    {
        match change_direction {
            Some(new_direction) => {
                self.snake.direction = new_direction;
            },
            None => {},
        }

        let new_head = self.snake.head.move_direction(self.snake.direction);
        let must_grow = new_head == self.food.position;

        if must_grow {
            self.snake.move_and_grow();
            self.food = Food::new(self.game_width, self.game_height);
            self.score = self.score + 1;
        } else {
            self.snake.move_direction();
        }

        self.actions.push(Action::new(new_head, change_direction, must_grow));
    }

    /// Whether the run is over: border contact or self-collision. A pure
    /// query; never mutates state.
    pub fn is_game_over(&self) -> (r: bool)
        requires
            self.game_width >= 1,
            self.game_height >= 1,
        ensures
            r == self.spec_game_over(),
    {
        self.snake.head.is_on_border(self.game_width, self.game_height)
            || self.snake.self_collision()
    }
}

/// Heading rejection: pressing the reverse of the current heading is
/// sanitized to `None`, so the heading the next tick moves along is the
/// current one — the organism never reverses into itself. The same holds
/// for pressing the current heading itself.
pub proof fn lemma_heading_rejection(s: GameState, pressed: Direction)
    requires
        pressed == s.snake.direction.spec_reverse() || pressed == s.snake.direction,
    ensures
        spec_sanitize(Some(pressed), s.snake.direction) is None,
        s.next_heading(spec_sanitize(Some(pressed), s.snake.direction)) == s.snake.direction,
{
}

/// Growth monotonicity: in every well-formed state the score equals the
/// body length. `GameState::new` establishes well-formedness, and `next`
/// preserves it while letting neither the score nor the body length
/// decrease, so the two stay equal and non-decreasing across a run.
pub proof fn lemma_score_tracks_body(s: GameState)
    requires
        s.wf(),
    ensures
        s.score == s.snake.tail@.len(),
{
}

/// Collision detection: a body that contains the head always makes the
/// state terminal; a body that excludes it leaves only border contact as a
/// cause, so away from the border the state is not terminal.
pub proof fn lemma_collision_detection(s: GameState)
    ensures
        s.snake.tail@.contains(s.snake.head) ==> s.spec_game_over(),
        !s.snake.tail@.contains(s.snake.head) && !s.snake.head.spec_on_border(
            s.game_width,
            s.game_height,
        ) ==> !s.spec_game_over(),
{
}

} // verus!

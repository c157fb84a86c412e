//! The game engine: board, snake, food, direction handling and the
//! tick-by-tick state transition.
//!
//! The board is a fixed 40 by 30 grid whose outer one-cell border is a wall.
//! The snake is an ordered sequence of cells, head first; every reachable
//! snake lies strictly inside the walls, its consecutive cells are adjacent,
//! and no cell repeats. A tick moves the snake one cell in the current
//! direction, growing when it eats the food and ending the game when the
//! move would hit a wall or the snake's own body.

use vstd::prelude::*;

use crate::rng::rng_from_entropy;
use crate::rng::rng_from_seed;
use crate::rng::rng_gen_range;

verus! {

/// The phase of the game. A fresh engine starts `Paused`; `Over` is entered
/// when a tick would move the snake into a wall or into itself.
#[derive(Copy, Clone, PartialEq, Eq, Structural, Debug)]
pub enum GameState {
    Playing,
    Paused,
    Over,
}

/// The four movement directions of the snake.
#[derive(Copy, Clone, PartialEq, Eq, Structural, Debug)]
pub enum PlayerDirection {
    Up,
    Down,
    Right,
    Left,
}

/// A board cell, as a pair of signed coordinates: `.0` is the column and
/// `.1` the row, both growing to the right and downward.
#[derive(Copy, Clone, PartialEq, Eq, Structural, Debug)]
pub struct Point(pub i32, pub i32);

/// The board's width in cells.
pub const BOARD_WIDTH: i32 = 40;

/// The board's height in cells.
pub const BOARD_HEIGHT: i32 = 30;

/// The unit step that one tick in direction `d` adds to the head.
pub open spec fn direction_delta(d: PlayerDirection) -> (int, int) {
    match d {
        PlayerDirection::Up => (0int, -1int),
        PlayerDirection::Down => (0int, 1int),
        PlayerDirection::Right => (1int, 0int),
        PlayerDirection::Left => (-1int, 0int),
    }
}

/// The cell one step from `p` in direction `d`.
pub open spec fn moved_point(p: Point, d: PlayerDirection) -> Point {
    Point(
        (p.0 + direction_delta(d).0) as i32,
        (p.1 + direction_delta(d).1) as i32,
    )
}

/// The direction opposite to `d`; a turn into it is refused while `d` was
/// the direction last applied by a tick.
pub open spec fn opposite(d: PlayerDirection) -> PlayerDirection {
    match d {
        PlayerDirection::Up => PlayerDirection::Down,
        PlayerDirection::Down => PlayerDirection::Up,
        PlayerDirection::Right => PlayerDirection::Left,
        PlayerDirection::Left => PlayerDirection::Right,
    }
}

/// The reversal guard: a turn to `requested` takes effect unless it would
/// reverse the direction the last moving tick committed.
pub open spec fn turn_allowed(last_committed: PlayerDirection, requested: PlayerDirection) -> bool {
    requested != opposite(last_committed)
}

/// `p` lies on the one-cell wall of a board of size `board`.
pub open spec fn on_wall(p: Point, board: Point) -> bool {
    p.0 == 0 || p.1 == 0 || p.0 == board.0 - 1 || p.1 == board.1 - 1
}

/// `p` lies strictly inside the walls of a board of size `board`.
pub open spec fn in_interior(p: Point, board: Point) -> bool {
    1 <= p.0 <= board.0 - 2 && 1 <= p.1 <= board.1 - 2
}

/// `a` and `b` differ by exactly one unit step.
pub open spec fn adjacent(a: Point, b: Point) -> bool {
    ||| a.0 == b.0 && (a.1 - b.1 == 1 || b.1 - a.1 == 1)
    ||| a.1 == b.1 && (a.0 - b.0 == 1 || b.0 - a.0 == 1)
}

/// The snake's invariant on a board of size `board`: non-empty, strictly
/// inside the walls, consecutive cells adjacent, and no repeated cell.
pub open spec fn snake_ok(s: Seq<Point>, board: Point) -> bool {
    &&& s.len() >= 1
    &&& forall|i: int| 0 <= i < s.len() ==> in_interior(#[trigger] s[i], board)
    &&& forall|i: int| 0 <= i < s.len() - 1 ==> adjacent(#[trigger] s[i], s[i + 1])
    &&& forall|i: int, j: int| 0 <= i < j < s.len() ==> s[i] != s[j]
}

/// The snake an engine is constructed with: three horizontal cells, head at
/// (20, 15), pointing right.
pub open spec fn initial_snake() -> Seq<Point> {
    seq![Point(20, 15), Point(19, 15), Point(18, 15)]
}

/// Prepending a safe new head preserves the snake invariant, whether the
/// tail is kept (growth) or dropped (translation).
proof fn lemma_snake_step(s_old: Seq<Point>, mid: Seq<Point>, nh: Point, board: Point)
    requires
        snake_ok(s_old, board),
        mid == s_old || mid == s_old.drop_last(),
        in_interior(nh, board),
        adjacent(nh, s_old[0]),
        !s_old.contains(nh),
    ensures
        snake_ok(seq![nh] + mid, board),
{
    let s_new = seq![nh] + mid;
    assert(forall|i: int| 0 <= i < mid.len() ==> mid[i] == s_old[i]);
    assert(s_new.len() >= 1);
    assert forall|i: int| 0 <= i < s_new.len() implies in_interior(s_new[i], board) by {
        if i == 0 {
            assert(s_new[0] == nh);
        } else {
            assert(s_new[i] == s_old[i - 1]);
        }
    };
    assert forall|i: int| 0 <= i < s_new.len() - 1 implies adjacent(#[trigger] s_new[i], s_new[i + 1]) by {
        if i == 0 {
            assert(s_new[0] == nh);
            assert(s_new[1] == s_old[0]);
        } else {
            assert(s_new[i] == s_old[i - 1]);
            assert(s_new[i + 1] == s_old[i]);
        }
    };
    assert forall|i: int, j: int| 0 <= i < j < s_new.len() implies s_new[i] != s_new[j] by {
        if i == 0 {
            assert(s_new[j] == s_old[j - 1]);
            assert(s_old.contains(s_old[j - 1]));
        } else {
            assert(s_new[i] == s_old[i - 1]);
            assert(s_new[j] == s_old[j - 1]);
        }
    };
}

/// The construction-time snake satisfies the snake invariant.
pub proof fn lemma_initial_snake_ok()
    ensures
        snake_ok(initial_snake(), Point(BOARD_WIDTH, BOARD_HEIGHT)),
{
    let s = initial_snake();
    assert(s.len() == 3);
    assert(s[0] == Point(20, 15));
    assert(s[1] == Point(19, 15));
    assert(s[2] == Point(18, 15));
}

/// Wall invariant: in a well-formed engine no snake cell lies on a wall.
/// Every engine method keeps well-formedness, and a tick whose move would
/// land on a wall ends the game without applying the move (see
/// `Context::next_tick`), so this holds of every reachable state.
pub proof fn lemma_wall_invariant(c: Context)
    requires
        c.wf(),
    ensures
        forall|i: int|
            0 <= i < c.snake().len() ==> !on_wall(#[trigger] c.snake()[i], c.board_size),
{
}

/// The game engine. It owns the whole simulation state; renderer and input
/// layers only read it or call its methods.
pub struct Context {
    /// Current phase of the game.
    pub state: GameState,
    /// The snake's cells, head first.
    pub player_position: Vec<Point>,
    /// The direction the next tick will apply.
    pub player_direction: PlayerDirection,
    /// The food's cell, if one is currently placed.
    pub food: Option<Point>,
    /// The board's size in cells (width, height).
    pub board_size: Point,
    /// The direction actually applied by the most recent moving tick; a turn
    /// straight back into it is refused. Kept separate from
    /// `player_direction` so that several turns between two ticks cannot
    /// smuggle in a reversal.
    pub last_tick_direction: PlayerDirection,
    /// Pseudo-random source for food placement.
    pub rng: rand::rngs::StdRng,
}

impl Context {
    /// The engine's well-formedness: the fixed board size, the snake
    /// invariant, and food (when present) strictly inside the walls.
    pub open spec fn wf(self) -> bool {
        &&& self.board_size == Point(BOARD_WIDTH, BOARD_HEIGHT)
        &&& snake_ok(self.player_position@, self.board_size)
        &&& (self.food matches Some(f) ==> in_interior(f, self.board_size))
    }

    /// The snake's cells, head first.
    pub open spec fn snake(self) -> Seq<Point> {
        self.player_position@
    }

    /// The snake's head cell.
    pub open spec fn head(self) -> Point {
        self.player_position@[0]
    }

    /// The cell the next moving tick would move the head to.
    pub open spec fn next_head(self) -> Point {
        moved_point(self.head(), self.player_direction)
    }

    /// Moving the head to `p` would end the game: `p` is a wall cell or a
    /// cell of the snake's current body.
    pub open spec fn hits_wall_or_body(self, p: Point) -> bool {
        on_wall(p, self.board_size) || self.snake().contains(p)
    }

    /// The next moving tick would end the game.
    pub open spec fn fatal(self) -> bool {
        self.hits_wall_or_body(self.next_head())
    }

    /// `f` is a coordinate the food may be spawned at: strictly inside the
    /// walls and not on the snake.
    pub open spec fn valid_spawn(self, f: Point) -> bool {
        in_interior(f, self.board_size) && !self.snake().contains(f)
    }

    /// How a tick's food-spawning stage relates the pre-state `self` to the
    /// post-state `post`: food already present is kept; absent food is
    /// replaced by some validly spawned coordinate — except in the
    /// degenerate case of a snake covering the whole interior, where there
    /// is no cell to spawn on and the food stays absent.
    pub open spec fn food_spawn_step(self, post: Context) -> bool {
        match self.food {
            Some(_) => post.food == self.food,
            None => (post.food matches Some(f) && self.valid_spawn(f)) || (post.food is None
                && forall|p: Point|
                    in_interior(p, self.board_size) ==> self.snake().contains(p)),
        }
    }
}

/// Whether `p` lies strictly inside the walls of a board of size `board`.
fn cell_in_interior(p: Point, board: Point) -> (r: bool)
    requires
        2 <= board.0,
        2 <= board.1,
    ensures
        r == in_interior(p, board),
{
    1 <= p.0 && p.0 <= board.0 - 2 && 1 <= p.1 && p.1 <= board.1 - 2
}

/// Whether `a` and `b` differ by exactly one unit step. The interior bounds
/// keep the coordinate differences far from the integer limits.
fn cells_adjacent(a: Point, b: Point) -> (r: bool)
    requires
        in_interior(a, Point(BOARD_WIDTH, BOARD_HEIGHT)),
        in_interior(b, Point(BOARD_WIDTH, BOARD_HEIGHT)),
    ensures
        r == adjacent(a, b),
{
    (a.0 == b.0 && (a.1 - b.1 == 1 || b.1 - a.1 == 1)) || (a.1 == b.1 && (a.0 - b.0 == 1
        || b.0 - a.0 == 1))
}

/// Whether `cells` contains the cell `p`.
fn contains_point(cells: &Vec<Point>, p: Point) -> (r: bool)
    ensures
        r == cells@.contains(p),
{
    let mut i: usize = 0;
    while i < cells.len()
        invariant
            0 <= i <= cells@.len(),
            forall|j: int| 0 <= j < i ==> cells@[j] != p,
        decreases cells@.len() - i,
    {
        if cells[i] == p {
            assert(cells@.contains(p)) by {
                assert(cells@[i as int] == p);
            }
            return true;
        }
        i += 1;
    }
    assert(!cells@.contains(p)) by {
        assert(forall|j: int| 0 <= j < cells@.len() ==> cells@[j] != p);
    }
    false
}

/// The construction-time snake as a vector.
fn initial_snake_vec() -> (v: Vec<Point>)
    ensures
        v@ == initial_snake(),
{
    let mut v: Vec<Point> = Vec::new();
    v.push(Point(20, 15));
    v.push(Point(19, 15));
    v.push(Point(18, 15));
    proof {
        assert(v@ =~= initial_snake());
    }
    v
}

impl Context {
    /// A fresh engine: paused, three-cell snake pointing right, no food yet,
    /// the fixed 40 by 30 board, and a random source seeded from the
    /// operating system.
    pub fn new() -> (c: Context)
        ensures
            c.wf(),
            c.state == GameState::Paused,
            c.snake() == initial_snake(),
            c.player_direction == PlayerDirection::Right,
            c.last_tick_direction == PlayerDirection::Right,
            c.food is None,
            c.board_size == Point(BOARD_WIDTH, BOARD_HEIGHT),
    {
        let c = Context {
            state: GameState::Paused,
            player_position: initial_snake_vec(),
            player_direction: PlayerDirection::Right,
            last_tick_direction: PlayerDirection::Right,
            food: None,
            board_size: Point(BOARD_WIDTH, BOARD_HEIGHT),
            rng: rng_from_entropy(),
        };
        proof {
            lemma_initial_snake_ok();
        }
        c
    }

    /// A fresh engine whose food placement is a fixed function of `seed`:
    /// the same seed gives the same run. Intended for deterministic tests.
    pub fn new_seeded(seed: u64) -> (c: Context)
        ensures
            c.wf(),
            c.state == GameState::Paused,
            c.snake() == initial_snake(),
            c.player_direction == PlayerDirection::Right,
            c.last_tick_direction == PlayerDirection::Right,
            c.food is None,
            c.board_size == Point(BOARD_WIDTH, BOARD_HEIGHT),
    {
        let c = Context {
            state: GameState::Paused,
            player_position: initial_snake_vec(),
            player_direction: PlayerDirection::Right,
            last_tick_direction: PlayerDirection::Right,
            food: None,
            board_size: Point(BOARD_WIDTH, BOARD_HEIGHT),
            rng: rng_from_seed(seed),
        };
        proof {
            lemma_initial_snake_ok();
        }
        c
    }

    /// Turn the snake upward, unless the last moving tick went down: a turn
    /// straight back into the body is silently ignored. Nothing but the
    /// requested direction changes.
    pub fn move_up(&mut self)
        ensures
            final(self).player_direction == (if turn_allowed(old(self).last_tick_direction, PlayerDirection::Up) {
                PlayerDirection::Up
            } else {
                old(self).player_direction
            }),
            final(self).state == old(self).state,
            final(self).player_position == old(self).player_position,
            final(self).food == old(self).food,
            final(self).board_size == old(self).board_size,
            final(self).last_tick_direction == old(self).last_tick_direction,
            final(self).rng == old(self).rng,
            old(self).wf() ==> final(self).wf(),
    {
        if matches!(self.last_tick_direction, PlayerDirection::Down) {
            return;
        }
        self.player_direction = PlayerDirection::Up;
    }

    /// Turn the snake downward, unless the last moving tick went up.
    pub fn move_down(&mut self)
        ensures
            final(self).player_direction == (if turn_allowed(old(self).last_tick_direction, PlayerDirection::Down) {
                PlayerDirection::Down
            } else {
                old(self).player_direction
            }),
            final(self).state == old(self).state,
            final(self).player_position == old(self).player_position,
            final(self).food == old(self).food,
            final(self).board_size == old(self).board_size,
            final(self).last_tick_direction == old(self).last_tick_direction,
            final(self).rng == old(self).rng,
            old(self).wf() ==> final(self).wf(),
    {
        if matches!(self.last_tick_direction, PlayerDirection::Up) {
            return;
        }
        self.player_direction = PlayerDirection::Down;
    }

    /// Turn the snake rightward, unless the last moving tick went left.
    pub fn move_right(&mut self)
        ensures
            final(self).player_direction == (if turn_allowed(old(self).last_tick_direction, PlayerDirection::Right) {
                PlayerDirection::Right
            } else {
                old(self).player_direction
            }),
            final(self).state == old(self).state,
            final(self).player_position == old(self).player_position,
            final(self).food == old(self).food,
            final(self).board_size == old(self).board_size,
            final(self).last_tick_direction == old(self).last_tick_direction,
            final(self).rng == old(self).rng,
            old(self).wf() ==> final(self).wf(),
    {
        if matches!(self.last_tick_direction, PlayerDirection::Left) {
            return;
        }
        self.player_direction = PlayerDirection::Right;
    }

    /// Turn the snake leftward, unless the last moving tick went right.
    pub fn move_left(&mut self)
        ensures
            final(self).player_direction == (if turn_allowed(old(self).last_tick_direction, PlayerDirection::Left) {
                PlayerDirection::Left
            } else {
                old(self).player_direction
            }),
            final(self).state == old(self).state,
            final(self).player_position == old(self).player_position,
            final(self).food == old(self).food,
            final(self).board_size == old(self).board_size,
            final(self).last_tick_direction == old(self).last_tick_direction,
            final(self).rng == old(self).rng,
            old(self).wf() ==> final(self).wf(),
    {
        if matches!(self.last_tick_direction, PlayerDirection::Right) {
            return;
        }
        self.player_direction = PlayerDirection::Left;
    }

    /// Toggle between playing and paused; from a finished game, restart:
    /// the snake and both direction fields return to their construction-time
    /// values and play resumes. The food is left as it is — if a game-over
    /// left one on the board it stays, and the next tick spawns one only if
    /// none is there.
    pub fn toggle_pause(&mut self)
        ensures
            final(self).state == (match old(self).state {
                GameState::Playing => GameState::Paused,
                GameState::Paused => GameState::Playing,
                GameState::Over => GameState::Playing,
            }),
            old(self).state is Over ==> {
                &&& final(self).snake() == initial_snake()
                &&& final(self).player_direction == PlayerDirection::Right
                &&& final(self).last_tick_direction == PlayerDirection::Right
            },
            !(old(self).state is Over) ==> {
                &&& final(self).player_position == old(self).player_position
                &&& final(self).player_direction == old(self).player_direction
                &&& final(self).last_tick_direction == old(self).last_tick_direction
            },
            final(self).food == old(self).food,
            final(self).board_size == old(self).board_size,
            final(self).rng == old(self).rng,
            old(self).wf() ==> final(self).wf(),
    {
        self.state = match self.state {
            GameState::Playing => GameState::Paused,
            GameState::Paused => GameState::Playing,
            GameState::Over => {
                self.player_position = initial_snake_vec();
                self.player_direction = PlayerDirection::Right;
                self.last_tick_direction = PlayerDirection::Right;
                proof {
                    lemma_initial_snake_ok();
                }
                GameState::Playing
            },
        };
    }

    /// Advance the simulation by one tick.
    ///
    /// First, absent food is spawned — even while paused or over, so food is
    /// ready when play resumes. Then, while playing, the head moves one cell
    /// in the current direction: into a wall or the body the game ends and
    /// the snake stays in its pre-move configuration; onto the food the
    /// snake grows and the food is cleared; otherwise the snake translates.
    /// A moving tick commits the applied direction, which bars the next
    /// reversal.
    pub fn next_tick(&mut self)
        requires
            old(self).wf(),
        ensures
            final(self).wf(),
            final(self).board_size == old(self).board_size,
            final(self).player_direction == old(self).player_direction,
            // paused or over: food may be spawned, the rest is frozen
            !(old(self).state is Playing) ==> {
                &&& final(self).state == old(self).state
                &&& final(self).player_position == old(self).player_position
                &&& final(self).last_tick_direction == old(self).last_tick_direction
                &&& old(self).food_spawn_step(*final(self))
            },
            // a fatal move ends the game and is never applied
            old(self).state is Playing && old(self).fatal() ==> {
                &&& final(self).state is Over
                &&& final(self).player_position == old(self).player_position
                &&& final(self).last_tick_direction == old(self).last_tick_direction
                &&& old(self).food_spawn_step(*final(self))
            },
            // a safe move: growth exactly when the food is eaten, which is
            // exactly when no food is left afterward
            old(self).state is Playing && !old(self).fatal() ==> {
                &&& final(self).state is Playing
                &&& final(self).last_tick_direction == old(self).player_direction
                &&& (final(self).food is None ==> {
                    &&& old(self).food == Some(old(self).next_head())
                        || (old(self).food is None
                            && old(self).valid_spawn(old(self).next_head()))
                    &&& final(self).snake() == seq![old(self).next_head()] + old(self).snake()
                })
                &&& (final(self).food matches Some(f) ==> {
                    &&& f != old(self).next_head()
                    &&& (old(self).food == Some(f)
                        || (old(self).food is None && old(self).valid_spawn(f)))
                    &&& final(self).snake() == seq![old(self).next_head()]
                        + old(self).snake().drop_last()
                })
            },
            // the length invariant: growth by one on an eating tick, else
            // the length is kept
            old(self).state is Playing && !old(self).fatal() ==> final(self).snake().len()
                == old(self).snake().len() + (if final(self).food is None {
                1int
            } else {
                0int
            }),
    {
        if self.food.is_none() {
            self.spawn_food();
        }
        match self.state {
            GameState::Over | GameState::Paused => {
                return;
            },
            GameState::Playing => {},
        }
        let head = self.player_position[0];
        let next_head_position = match self.player_direction {
            PlayerDirection::Up => Point(head.0, head.1 - 1),
            PlayerDirection::Down => Point(head.0, head.1 + 1),
            PlayerDirection::Right => Point(head.0 + 1, head.1),
            PlayerDirection::Left => Point(head.0 - 1, head.1),
        };
        proof {
            assert(next_head_position == old(self).next_head());
        }

        if self.is_game_over(next_head_position) {
            self.state = GameState::Over;
            return;
        }
        proof {
            // the move is safe, so its target is a free interior cell: the
            // spawn stage cannot have found the interior saturated
            assert(in_interior(next_head_position, self.board_size));
            if old(self).food is None && self.food is None {
                assert(old(self).snake().contains(next_head_position));
                assert(false);
            }
        }

        let eats = match self.food {
            Some(f) => f == next_head_position,
            None => false,
        };
        if eats {
            self.move_player(next_head_position, true);
            self.food = None;
            return;
        }

        self.move_player(next_head_position, false);
    }

    /// Decide `wf` at run time. Unverified callers that assemble or mutate
    /// an engine by hand can test well-formedness with this before driving
    /// the engine, instead of trusting it.
    pub fn is_well_formed(&self) -> (r: bool)
        ensures
            r == self.wf(),
    {
        if !(self.board_size.0 == BOARD_WIDTH && self.board_size.1 == BOARD_HEIGHT) {
            return false;
        }
        let n = self.player_position.len();
        if n == 0 {
            return false;
        }
        let mut i: usize = 0;
        while i < n
            invariant
                n == self.player_position@.len(),
                0 <= i <= n,
                self.board_size == Point(BOARD_WIDTH, BOARD_HEIGHT),
                forall|j: int|
                    0 <= j < i ==> in_interior(
                        #[trigger] self.player_position@[j],
                        self.board_size,
                    ),
            decreases n - i,
        {
            if !cell_in_interior(self.player_position[i], self.board_size) {
                return false;
            }
            i += 1;
        }
        let mut k: usize = 0;
        while k + 1 < n
            invariant
                n == self.player_position@.len(),
                1 <= n,
                0 <= k <= n - 1,
                self.board_size == Point(BOARD_WIDTH, BOARD_HEIGHT),
                forall|j: int|
                    0 <= j < n ==> in_interior(
                        #[trigger] self.player_position@[j],
                        self.board_size,
                    ),
                forall|j: int|
                    0 <= j < k ==> adjacent(
                        #[trigger] self.player_position@[j],
                        self.player_position@[j + 1],
                    ),
            decreases n - k,
        {
            if !cells_adjacent(self.player_position[k], self.player_position[k + 1]) {
                return false;
            }
            k += 1;
        }
        let mut a: usize = 0;
        while a < n
            invariant
                n == self.player_position@.len(),
                0 <= a <= n,
                self.board_size == Point(BOARD_WIDTH, BOARD_HEIGHT),
                forall|p: int, q: int|
                    0 <= p < q < n && p < a ==> self.player_position@[p]
                        != self.player_position@[q],
            decreases n - a,
        {
            let mut b: usize = a + 1;
            while b < n
                invariant
                    n == self.player_position@.len(),
                    0 <= a < n,
                    a + 1 <= b <= n,
                    forall|q: int|
                        a < q < b ==> self.player_position@[a as int]
                            != self.player_position@[q],
                decreases n - b,
            {
                if self.player_position[a] == self.player_position[b] {
                    assert(self.player_position@[a as int] == self.player_position@[b as int]);
                    return false;
                }
                b += 1;
            }
            a += 1;
        }
        match self.food {
            Some(f) => cell_in_interior(f, self.board_size),
            None => true,
        }
    }

    /// Whether moving the head to `next_head_position` would end the game:
    /// wall contact, or collision with any cell of the current body.
    fn is_game_over(&self, next_head_position: Point) -> (r: bool)
        requires
            self.wf(),
        ensures
            r == self.hits_wall_or_body(next_head_position),
    {
        let x = next_head_position.0;
        let y = next_head_position.1;
        let x_size = self.board_size.0;
        let y_size = self.board_size.1;
        x == 0 || y == 0 || x == x_size - 1 || y == y_size - 1
            || contains_point(&self.player_position, next_head_position)
    }

    /// Place food on an interior cell the snake does not occupy: first by
    /// sampling uniformly a bounded number of times, then — should every
    /// sample collide with the snake — by scanning the interior for a free
    /// cell. Only when the snake occupies the whole interior is no food
    /// placed; every reachable game is far from that degenerate case.
    fn spawn_food(&mut self)
        requires
            old(self).wf(),
        ensures
            final(self).wf(),
            final(self).state == old(self).state,
            final(self).player_position == old(self).player_position,
            final(self).player_direction == old(self).player_direction,
            final(self).last_tick_direction == old(self).last_tick_direction,
            final(self).board_size == old(self).board_size,
            (final(self).food matches Some(f) && old(self).valid_spawn(f))
                || (final(self).food == old(self).food
                    && forall|p: Point|
                        in_interior(p, old(self).board_size) ==> old(self).snake().contains(p)),
    {
        let size_x = self.board_size.0;
        let size_y = self.board_size.1;
        let mut attempts: u32 = 0;
        while attempts < 1000
            invariant
                self.wf(),
                self.state == old(self).state,
                self.player_position == old(self).player_position,
                self.player_direction == old(self).player_direction,
                self.last_tick_direction == old(self).last_tick_direction,
                self.board_size == old(self).board_size,
                self.food == old(self).food,
                size_x == self.board_size.0,
                size_y == self.board_size.1,
            decreases 1000 - attempts,
        {
            let fx = rng_gen_range(&mut self.rng, 1, size_x - 1);
            let fy = rng_gen_range(&mut self.rng, 1, size_y - 1);
            let food = Point(fx, fy);
            if !contains_point(&self.player_position, food) {
                self.food = Some(food);
                return;
            }
            attempts += 1;
        }
        let mut x: i32 = 1;
        while x <= size_x - 2
            invariant
                self.wf(),
                self.state == old(self).state,
                self.player_position == old(self).player_position,
                self.player_direction == old(self).player_direction,
                self.last_tick_direction == old(self).last_tick_direction,
                self.board_size == old(self).board_size,
                self.food == old(self).food,
                size_x == self.board_size.0,
                size_y == self.board_size.1,
                1 <= x,
                forall|p: Point|
                    in_interior(p, self.board_size) && p.0 < x
                        ==> self.snake().contains(p),
            decreases size_x - x,
        {
            let mut y: i32 = 1;
            while y <= size_y - 2
                invariant
                    self.wf(),
                    self.state == old(self).state,
                    self.player_position == old(self).player_position,
                    self.player_direction == old(self).player_direction,
                    self.last_tick_direction == old(self).last_tick_direction,
                    self.board_size == old(self).board_size,
                    self.food == old(self).food,
                    size_x == self.board_size.0,
                    size_y == self.board_size.1,
                    1 <= x <= size_x - 2,
                    1 <= y,
                    forall|p: Point|
                        in_interior(p, self.board_size) && p.0 < x
                            ==> self.snake().contains(p),
                    forall|p: Point|
                        in_interior(p, self.board_size) && p.0 == x && p.1 < y
                            ==> self.snake().contains(p),
                decreases size_y - y,
            {
                let food = Point(x, y);
                if !contains_point(&self.player_position, food) {
                    self.food = Some(food);
                    return;
                }
                y += 1;
            }
            x += 1;
        }
    }

    /// Move the snake: prepend the new head, and drop the tail unless the
    /// move grows the snake. Records the applied direction as the
    /// last-committed one.
    fn move_player(&mut self, next_head_position: Point, grow: bool)
        requires
            old(self).wf(),
            in_interior(next_head_position, old(self).board_size),
            adjacent(next_head_position, old(self).head()),
            !old(self).snake().contains(next_head_position),
        ensures
            final(self).wf(),
            final(self).snake() == (if grow {
                seq![next_head_position] + old(self).snake()
            } else {
                seq![next_head_position] + old(self).snake().drop_last()
            }),
            final(self).last_tick_direction == old(self).player_direction,
            final(self).state == old(self).state,
            final(self).player_direction == old(self).player_direction,
            final(self).food == old(self).food,
            final(self).board_size == old(self).board_size,
            final(self).rng == old(self).rng,
    {
        if !grow {
            self.player_position.pop();
        }
        self.player_position.insert(0, next_head_position);
        self.last_tick_direction = self.player_direction;
        proof {
            let s_old = old(self).snake();
            let mid = if grow { s_old } else { s_old.drop_last() };
            lemma_snake_step(s_old, mid, next_head_position, old(self).board_size);
            assert(self.player_position@ =~= seq![next_head_position] + mid);
        }
    }
}

} // verus!

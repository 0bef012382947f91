//! The game engine: owns the snake, the food, the grid bounds and the
//! lifecycle flags, and advances them from two entry points only — a key
//! event and an elapsed-time tick, both measured in whole milliseconds. A
//! renderer reads the state back through the query surface at the bottom.

use vstd::prelude::*;

use crate::rng::{fresh_rng, rand_in_range};
use crate::snake::{
    blocked_len, cell_in_range, next_head_spec, on_body, opposite_spec, overlaps_spec,
    resolve_spec, snake_wf, Cell, Direction, Snake, SnakeView, Steering,
};

verus! {

/// The snake moves one cell each time this much accumulated time has passed.
pub const MOVING_PERIOD_MS: u64 = 100;

/// Time spent in the game-over state before the engine resets itself.
pub const RESTART_TIME_MS: u64 = 1000;

/// A key event, already mapped from the input source's namespace. The engine
/// recognizes the four arrow keys and the letter aliases Z, S, Q, D; every
/// other key arrives as `Other` and is a no-op.
#[derive(Clone, Copy, PartialEq, Eq, Structural, Debug)]
pub enum KeyCode {
    Up,
    Down,
    Left,
    Right,
    Z,
    S,
    Q,
    D,
    Other,
}

/// The direction a key stands for, if any. Two physical key sets alias the
/// same four logical directions.
pub open spec fn key_dir(k: KeyCode) -> Option<Direction> {
    match k {
        KeyCode::Up => Some(Direction::Up),
        KeyCode::Down => Some(Direction::Down),
        KeyCode::Left => Some(Direction::Left),
        KeyCode::Right => Some(Direction::Right),
        KeyCode::Z => Some(Direction::Up),
        KeyCode::S => Some(Direction::Down),
        KeyCode::Q => Some(Direction::Left),
        KeyCode::D => Some(Direction::Right),
        KeyCode::Other => None,
    }
}

/// Maps a key event to the direction it requests, or `None` for a key the
/// engine does not recognize.
pub fn direction_of_key(key: KeyCode) -> (d: Option<Direction>)
    ensures
        d == key_dir(key),
{
    match key {
        KeyCode::Up => Some(Direction::Up),
        KeyCode::Down => Some(Direction::Down),
        KeyCode::Left => Some(Direction::Left),
        KeyCode::Right => Some(Direction::Right),
        KeyCode::Z => Some(Direction::Up),
        KeyCode::S => Some(Direction::Down),
        KeyCode::Q => Some(Direction::Left),
        KeyCode::D => Some(Direction::Right),
        KeyCode::Other => None,
    }
}

/// Mathematical model of the whole engine state. The random generator is not
/// part of it: nothing provable depends on which values the generator yields.
#[verifier::ext_equal]
pub ghost struct GameView {
    pub snake: SnakeView,
    pub food_exists: bool,
    pub food: Cell,
    pub width: i32,
    pub height: i32,
    pub started: bool,
    pub over: bool,
    pub waiting_ms: u64,
}

/// Whether `c` lies on the grid, the border ring included.
pub open spec fn in_grid(c: Cell, w: i32, h: i32) -> bool {
    1 <= c.x < w && 1 <= c.y < h
}

/// Whether `c` lies strictly inside the border ring, i.e. is eligible for
/// snake or food placement.
pub open spec fn in_interior(c: Cell, w: i32, h: i32) -> bool {
    0 < c.x < w - 1 && 0 < c.y < h - 1
}

/// Whether `c` lies on or outside the impassable border ring.
pub open spec fn hits_border(c: Cell, w: i32, h: i32) -> bool {
    c.x <= 0 || c.y <= 0 || c.x >= w - 1 || c.y >= h - 1
}

/// The state invariant, true of every reachable state: the grid leaves an
/// interior, the body has at least one cell with all cells pairwise distinct
/// and on the grid, no growth is pending between steps, and food that exists
/// never lies on a body cell.
pub open spec fn game_inv(g: GameView) -> bool {
    &&& g.width >= 3
    &&& g.height >= 3
    &&& snake_wf(g.snake)
    &&& !g.snake.pending_growth
    &&& forall|i: int|
        0 <= i < g.snake.cells.len() ==> in_grid(#[trigger] g.snake.cells[i], g.width, g.height)
    &&& g.food_exists ==> !on_body(g.snake.cells, g.food)
}

/// Whether one step steered by `s` is fatal: the target cell collides with
/// the body (the soon-to-vacate tail not counted) or lies on the border ring.
pub open spec fn step_fatal(g: GameView, s: Steering) -> bool {
    ||| overlaps_spec(g.snake, next_head_spec(g.snake, s))
    ||| hits_border(next_head_spec(g.snake, s), g.width, g.height)
}

/// One simulation step steered by `s`. A fatal step only ends the game; a
/// live step advances the body one cell, eats food lying on the target cell
/// (keeping the tail, net length +1), and in either case restarts the clock.
pub open spec fn step_spec(g: GameView, s: Steering) -> GameView {
    if step_fatal(g, s) {
        GameView {
            snake: g.snake,
            food_exists: g.food_exists,
            food: g.food,
            width: g.width,
            height: g.height,
            started: g.started,
            over: true,
            waiting_ms: 0,
        }
    } else {
        let nh = next_head_spec(g.snake, s);
        let eats = g.food_exists && nh == g.food;
        GameView {
            snake: SnakeView {
                cells: seq![nh] + if eats {
                    g.snake.cells
                } else {
                    g.snake.cells.drop_last()
                },
                dir: resolve_spec(g.snake.dir, s),
                pending_growth: false,
            },
            food_exists: g.food_exists && !eats,
            food: g.food,
            width: g.width,
            height: g.height,
            started: g.started,
            over: g.over,
            waiting_ms: 0,
        }
    }
}

/// `g` with only the clock changed.
pub open spec fn with_waiting(g: GameView, w: u64) -> GameView {
    GameView {
        snake: g.snake,
        food_exists: g.food_exists,
        food: g.food,
        width: g.width,
        height: g.height,
        started: g.started,
        over: g.over,
        waiting_ms: w,
    }
}

/// `g` with only the started flag raised.
pub open spec fn with_started(g: GameView) -> GameView {
    GameView {
        snake: g.snake,
        food_exists: g.food_exists,
        food: g.food,
        width: g.width,
        height: g.height,
        started: true,
        over: g.over,
        waiting_ms: g.waiting_ms,
    }
}

/// `g` with food present at `c`.
pub open spec fn food_at(g: GameView, c: Cell) -> GameView {
    GameView {
        snake: g.snake,
        food_exists: true,
        food: c,
        width: g.width,
        height: g.height,
        started: g.started,
        over: g.over,
        waiting_ms: g.waiting_ms,
    }
}

/// What a key event does. Once over, all input is ignored until the timed
/// reset. An unrecognized key is a no-op. The first accepted direction starts
/// the game and drives one immediate step. While running, the exact opposite
/// of the current heading is discarded with no step taken; any other
/// direction drives one immediate step.
pub open spec fn key_step_spec(g: GameView, k: KeyCode) -> GameView {
    if g.over {
        g
    } else {
        match key_dir(k) {
            None => g,
            Some(d) => if !g.started {
                step_spec(with_started(g), Steering::Toward(d))
            } else if d == opposite_spec(g.snake.dir) {
                g
            } else {
                step_spec(g, Steering::Toward(d))
            },
        }
    }
}

/// Addition on the millisecond clock, saturating at the top of `u64`.
pub open spec fn sat_add_u64(a: u64, b: u64) -> u64 {
    if a + b > u64::MAX {
        u64::MAX
    } else {
        (a + b) as u64
    }
}

/// What placing new food may produce: `g1` is `g` with the clock at `w` and
/// the food fields re-rolled. Food exists afterwards exactly when some
/// interior cell is free of the body; where it lands is up to the random
/// source, but it is always an interior cell off the body.
pub open spec fn refill_ok(g: GameView, w: u64, g1: GameView) -> bool {
    &&& g1.snake == g.snake
    &&& g1.width == g.width
    &&& g1.height == g.height
    &&& g1.started == g.started
    &&& g1.over == g.over
    &&& g1.waiting_ms == w
    &&& g1.food_exists == exists|c: Cell|
        in_interior(c, g.width, g.height) && !on_body(g.snake.cells, c)
    &&& g1.food_exists ==> in_interior(g1.food, g.width, g.height) && !on_body(
        g.snake.cells,
        g1.food,
    )
    &&& !g1.food_exists ==> g1.food == g.food
}

/// What the timed reset may produce: the grid is kept, the lifecycle returns
/// to waiting with the clock at zero, the snake is rebuilt as one interior
/// cell heading right, and food is re-rolled off the new body. Where the
/// snake and the food land is up to the random source.
pub open spec fn reset_ok(g: GameView, g1: GameView) -> bool {
    &&& g1.width == g.width
    &&& g1.height == g.height
    &&& !g1.started
    &&& !g1.over
    &&& g1.waiting_ms == 0
    &&& g1.snake.cells.len() == 1
    &&& in_interior(g1.snake.cells[0], g1.width, g1.height)
    &&& g1.snake.dir == Direction::Right
    &&& !g1.snake.pending_growth
    &&& g1.food_exists == exists|c: Cell|
        in_interior(c, g1.width, g1.height) && !on_body(g1.snake.cells, c)
    &&& g1.food_exists ==> in_interior(g1.food, g1.width, g1.height) && !on_body(
        g1.snake.cells,
        g1.food,
    )
}

/// The two state invariants survive one simulation step: the body keeps at
/// least one cell, all body cells stay pairwise distinct and on the grid, and
/// food that still exists lies on no body cell.
pub proof fn lemma_step_preserves_inv(g: GameView, s: Steering)
    requires
        game_inv(g),
    ensures
        game_inv(step_spec(g, s)),
{
    if !step_fatal(g, s) {
        let nh = next_head_spec(g.snake, s);
        let eats = g.food_exists && nh == g.food;
        let g1 = step_spec(g, s);
        let retained = if eats {
            g.snake.cells
        } else {
            g.snake.cells.drop_last()
        };
        assert(g1.snake.cells == seq![nh] + retained);
        assert(!hits_border(nh, g.width, g.height));
        assert forall|i: int, j: int|
            0 <= i < j < g1.snake.cells.len() implies g1.snake.cells[i] != g1.snake.cells[j] by {
            if i == 0 {
                assert(g1.snake.cells[j] == retained[j - 1]);
                assert(retained[j - 1] == g.snake.cells[j - 1]);
                if j - 1 < blocked_len(g.snake) {
                    assert(!overlaps_spec(g.snake, nh));
                    assert(g.snake.cells[j - 1] != nh);
                } else {
                    assert(eats && j - 1 == g.snake.cells.len() - 1);
                    assert(on_body(g.snake.cells, g.snake.cells[j - 1]));
                    assert(g.snake.cells[j - 1] != g.food);
                }
            } else {
                assert(g1.snake.cells[i] == g.snake.cells[i - 1]);
                assert(g1.snake.cells[j] == g.snake.cells[j - 1]);
            }
        }
        assert forall|i: int|
            0 <= i < g1.snake.cells.len() implies in_grid(
            #[trigger] g1.snake.cells[i],
            g1.width,
            g1.height,
        ) by {
            if i > 0 {
                assert(g1.snake.cells[i] == g.snake.cells[i - 1]);
            }
        }
        assert forall|i: int|
            0 <= i < g1.snake.cells.len() implies cell_in_range(#[trigger] g1.snake.cells[i]) by {
            if i > 0 {
                assert(g1.snake.cells[i] == g.snake.cells[i - 1]);
            }
        }
        if g1.food_exists {
            assert forall|i: int|
                0 <= i < g1.snake.cells.len() implies g1.snake.cells[i] != g1.food by {
                if i == 0 {
                    assert(g1.snake.cells[0] == nh);
                } else {
                    assert(g1.snake.cells[i] == g.snake.cells[i - 1]);
                    assert(on_body(g.snake.cells, g.snake.cells[i - 1]));
                }
            }
        }
    }
}

/// The game engine.
pub struct Game {
    snake: Snake,
    food_exists: bool,
    food_x: i32,
    food_y: i32,
    width: i32,
    height: i32,
    game_started: bool,
    game_over: bool,
    waiting_time: u64,
    rng: rand::rngs::ThreadRng,
}

impl View for Game {
    type V = GameView;

    closed spec fn view(&self) -> GameView {
        GameView {
            snake: self.snake@,
            food_exists: self.food_exists,
            food: Cell { x: self.food_x, y: self.food_y },
            width: self.width,
            height: self.height,
            started: self.game_started,
            over: self.game_over,
            waiting_ms: self.waiting_time,
        }
    }
}

impl Game {
    /// A fresh engine on a `width` by `height` grid: a one-cell snake at a
    /// fixed starting cell, food at a fixed cell, not started, not over.
    pub fn new(width: i32, height: i32) -> (g: Game)
        requires
            3 <= width,
            3 <= height,
        ensures
            game_inv(g@),
            g@ == (GameView {
                snake: SnakeView {
                    cells: seq![Cell { x: 2, y: 2 }],
                    dir: Direction::Right,
                    pending_growth: false,
                },
                food_exists: true,
                food: Cell { x: 6, y: 4 },
                width: width,
                height: height,
                started: false,
                over: false,
                waiting_ms: 0,
            }),
    {
        let g = Game {
            snake: Snake::new(2, 2),
            food_exists: true,
            food_x: 6,
            food_y: 4,
            width,
            height,
            game_started: false,
            game_over: false,
            waiting_time: 0,
            rng: fresh_rng(),
        };
        proof {
            assert(g@ =~= (GameView {
                snake: SnakeView {
                    cells: seq![Cell { x: 2, y: 2 }],
                    dir: Direction::Right,
                    pending_growth: false,
                },
                food_exists: true,
                food: Cell { x: 6, y: 4 },
                width: width,
                height: height,
                started: false,
                over: false,
                waiting_ms: 0,
            }));
        }
        g
    }

    /// A uniformly random interior cell, one coordinate per axis.
    fn get_random_pos(&mut self) -> (r: (i32, i32))
        requires
            old(self)@.width >= 3,
            old(self)@.height >= 3,
        ensures
            final(self)@ == old(self)@,
            1 <= r.0 < old(self)@.width - 1,
            1 <= r.1 < old(self)@.height - 1,
    {
        let x = rand_in_range(&mut self.rng, 1, self.width - 1);
        let y = rand_in_range(&mut self.rng, 1, self.height - 1);
        (x, y)
    }

    /// Whether one step steered by `s` keeps the snake alive: the target cell
    /// is off the body (the vacating tail not counted) and off the border.
    fn check_if_snake_alive(&self, s: Steering) -> (alive: bool)
        requires
            game_inv(self@),
        ensures
            alive == !step_fatal(self@, s),
    {
        let nh = self.snake.next_head(s);
        if self.snake.overlaps_body(nh) {
            return false;
        }
        nh.x > 0 && nh.y > 0 && nh.x < self.width - 1 && nh.y < self.height - 1
    }

    /// One simulation step steered by `s`, shared by the tick-driven and the
    /// input-driven paths.
    fn update_snake(&mut self, s: Steering)
        requires
            game_inv(old(self)@),
        ensures
            game_inv(final(self)@),
            final(self)@ == step_spec(old(self)@, s),
    {
        let alive = self.check_if_snake_alive(s);
        if alive {
            let nh = self.snake.next_head(s);
            let eats = self.food_exists && nh.x == self.food_x && nh.y == self.food_y;
            proof {
                let g0 = old(self)@;
                assert(!hits_border(next_head_spec(g0.snake, s), g0.width, g0.height));
                assert(cell_in_range(next_head_spec(g0.snake, s)));
            }
            if eats {
                self.snake.grow_pending();
                self.food_exists = false;
                proof {
                    let g0 = old(self)@;
                    let nhs = next_head_spec(g0.snake, s);
                    assert(!on_body(g0.snake.cells, g0.food));
                    assert(nhs == g0.food);
                    assert forall|i: int|
                        0 <= i < blocked_len(self@.snake) implies self@.snake.cells[i] != nhs by {
                        assert(on_body(g0.snake.cells, g0.snake.cells[i]));
                    }
                }
            }
            self.snake.advance(s);
            self.waiting_time = 0;
            proof {
                let g0 = old(self)@;
                assert(self@.snake.cells =~= step_spec(g0, s).snake.cells);
                assert(self@ =~= step_spec(g0, s));
                lemma_step_preserves_inv(g0, s);
            }
        } else {
            self.game_over = true;
            self.waiting_time = 0;
            proof {
                assert(self@ =~= step_spec(old(self)@, s));
            }
        }
    }

    /// Handles one key event, as `key_step_spec` describes.
    pub fn key_pressed(&mut self, key: KeyCode)
        requires
            game_inv(old(self)@),
        ensures
            game_inv(final(self)@),
            final(self)@ == key_step_spec(old(self)@, key),
    {
        if self.game_over {
            return;
        }
        let dir = direction_of_key(key);
        let d = match dir {
            None => {
                return;
            },
            Some(d) => d,
        };
        if !self.game_started {
            self.game_started = true;
            proof {
                assert(self@ =~= with_started(old(self)@));
            }
            self.update_snake(Steering::Toward(d));
        } else if d == self.snake.head_direction().opposite() {
            // the exact opposite of the current heading: silently ignored,
            // no step is taken and the clock is left alone
        } else {
            self.update_snake(Steering::Toward(d));
        }
    }

    /// Places food at `(x, y)` if that cell is interior and off the body, the
    /// tail cell included; otherwise changes nothing. Returns whether food
    /// was placed. The random placement loop drives this with sampled cells;
    /// a caller may drive it with chosen ones.
    pub fn try_place_food(&mut self, x: i32, y: i32) -> (placed: bool)
        requires
            game_inv(old(self)@),
        ensures
            game_inv(final(self)@),
            placed == (in_interior(Cell { x: x, y: y }, old(self)@.width, old(self)@.height)
                && !on_body(old(self)@.snake.cells, Cell { x: x, y: y })),
            placed ==> final(self)@ == food_at(old(self)@, Cell { x: x, y: y }),
            !placed ==> final(self)@ == old(self)@,
    {
        let c = Cell { x, y };
        if !(x > 0 && y > 0 && x < self.width - 1 && y < self.height - 1) {
            return false;
        }
        if self.snake.occupies(c) {
            return false;
        }
        self.food_x = x;
        self.food_y = y;
        self.food_exists = true;
        proof {
            assert(self@ =~= food_at(old(self)@, c));
        }
        true
    }

    /// Places new food: first a bounded number of random samples, then, if
    /// every sample landed on the body, a deterministic scan of the interior.
    /// Only a board whose whole interior is covered by the body ends with no
    /// food.
    fn add_food(&mut self)
        requires
            game_inv(old(self)@),
        ensures
            game_inv(final(self)@),
            refill_ok(old(self)@, old(self)@.waiting_ms, final(self)@),
    {
        let mut attempts: u32 = 0;
        while attempts < 32
            invariant
                game_inv(self@),
                self@ == old(self)@,
            decreases 32 - attempts,
        {
            let (x, y) = self.get_random_pos();
            let placed = self.try_place_food(x, y);
            if placed {
                proof {
                    assert(in_interior(Cell { x: x, y: y }, old(self)@.width, old(self)@.height));
                }
                return;
            }
            attempts += 1;
        }
        let w = self.width;
        let h = self.height;
        let mut x: i32 = 1;
        while x < w - 1
            invariant
                game_inv(self@),
                self@ == old(self)@,
                w == self@.width,
                h == self@.height,
                1 <= x <= w - 1,
                forall|c: Cell|
                    #[trigger] in_interior(c, w, h) && c.x < x ==> on_body(self@.snake.cells, c),
            decreases w - x,
        {
            let mut y: i32 = 1;
            while y < h - 1
                invariant
                    game_inv(self@),
                    self@ == old(self)@,
                    w == self@.width,
                    h == self@.height,
                    1 <= x < w - 1,
                    1 <= y <= h - 1,
                    forall|c: Cell|
                        #[trigger] in_interior(c, w, h) && (c.x < x || (c.x == x && c.y < y))
                            ==> on_body(self@.snake.cells, c),
                decreases h - y,
            {
                let placed = self.try_place_food(x, y);
                if placed {
                    return;
                }
                proof {
                    assert(on_body(self@.snake.cells, Cell { x: x, y: y }));
                }
                y += 1;
            }
            x += 1;
        }
        self.food_exists = false;
        proof {
            assert forall|c: Cell|
                in_interior(c, w, h) implies on_body(self@.snake.cells, c) by {
                assert(c.x < w - 1);
            }
        }
    }

    /// The full reset after the game-over delay: the snake is rebuilt as one
    /// random interior cell heading right, the clock and the flags are
    /// cleared, and food is re-rolled. The food is placed off the new body
    /// cell, so the food invariant holds right after a reset too, rather than
    /// by a bare re-roll that could land on the snake.
    fn reset(&mut self)
        requires
            game_inv(old(self)@),
        ensures
            game_inv(final(self)@),
            reset_ok(old(self)@, final(self)@),
    {
        let (sx, sy) = self.get_random_pos();
        self.snake = Snake::new(sx, sy);
        self.waiting_time = 0;
        self.game_over = false;
        self.game_started = false;
        self.food_exists = false;
        self.add_food();
    }

    /// Handles one elapsed-time tick of `delta_ms` milliseconds. Over: waits
    /// out the restart delay, then resets. Waiting: only accumulates time.
    /// Running: re-places missing food, and performs one step once more than
    /// a moving period has accumulated.
    pub fn update(&mut self, delta_ms: u64)
        requires
            game_inv(old(self)@),
        ensures
            game_inv(final(self)@),
            old(self)@.over && sat_add_u64(old(self)@.waiting_ms, delta_ms) > RESTART_TIME_MS
                ==> reset_ok(old(self)@, final(self)@),
            old(self)@.over && sat_add_u64(old(self)@.waiting_ms, delta_ms) <= RESTART_TIME_MS
                ==> final(self)@ == with_waiting(old(self)@, sat_add_u64(old(self)@.waiting_ms, delta_ms)),
            !old(self)@.over && !old(self)@.started ==> final(self)@ == with_waiting(
                old(self)@,
                sat_add_u64(old(self)@.waiting_ms, delta_ms),
            ),
            !old(self)@.over && old(self)@.started && old(self)@.food_exists && sat_add_u64(
                old(self)@.waiting_ms,
                delta_ms,
            ) > MOVING_PERIOD_MS ==> final(self)@ == step_spec(old(self)@, Steering::Keep),
            !old(self)@.over && old(self)@.started && old(self)@.food_exists && sat_add_u64(
                old(self)@.waiting_ms,
                delta_ms,
            ) <= MOVING_PERIOD_MS ==> final(self)@ == with_waiting(
                old(self)@,
                sat_add_u64(old(self)@.waiting_ms, delta_ms),
            ),
            !old(self)@.over && old(self)@.started && !old(self)@.food_exists ==> exists|g1: GameView|
                #[trigger] refill_ok(old(self)@, sat_add_u64(old(self)@.waiting_ms, delta_ms), g1)
                    && final(self)@ == (if sat_add_u64(old(self)@.waiting_ms, delta_ms)
                    > MOVING_PERIOD_MS {
                    step_spec(g1, Steering::Keep)
                } else {
                    g1
                }),
    {
        let w: u64 = if delta_ms > u64::MAX - self.waiting_time {
            u64::MAX
        } else {
            self.waiting_time + delta_ms
        };
        self.waiting_time = w;
        proof {
            assert(w == sat_add_u64(old(self)@.waiting_ms, delta_ms));
            assert(self@ =~= with_waiting(old(self)@, w));
        }
        if self.game_over {
            if self.waiting_time > RESTART_TIME_MS {
                self.reset();
            }
            return;
        }
        if !self.game_started {
            return;
        }
        if !self.food_exists {
            self.add_food();
        }
        let ghost g1 = self@;
        if self.waiting_time > MOVING_PERIOD_MS {
            self.update_snake(Steering::Keep);
        }
        proof {
            let g0 = old(self)@;
            if g0.food_exists {
                assert(g1 =~= with_waiting(g0, w));
                if w > MOVING_PERIOD_MS {
                    assert(step_spec(g1, Steering::Keep) =~= step_spec(g0, Steering::Keep));
                }
            } else {
                assert(refill_ok(g0, w, g1));
            }
        }
    }

    // --- the read-only query surface a renderer consumes ---

    /// The grid bounds as `(width, height)`.
    pub fn size(&self) -> (r: (i32, i32))
        ensures
            r.0 == self@.width,
            r.1 == self@.height,
    {
        (self.width, self.height)
    }

    /// Whether the first directional input has been accepted.
    pub fn is_started(&self) -> (b: bool)
        ensures
            b == self@.started,
    {
        self.game_started
    }

    /// Whether a fatal collision has ended the current round.
    pub fn is_over(&self) -> (b: bool)
        ensures
            b == self@.over,
    {
        self.game_over
    }

    /// The food cell, if food currently exists.
    pub fn food(&self) -> (r: Option<Cell>)
        ensures
            r == if self@.food_exists {
                Some(self@.food)
            } else {
                None::<Cell>
            },
    {
        if self.food_exists {
            Some(Cell { x: self.food_x, y: self.food_y })
        } else {
            None
        }
    }

    /// The snake's current heading.
    pub fn heading(&self) -> (d: Direction)
        ensures
            d == self@.snake.dir,
    {
        self.snake.head_direction()
    }

    /// The snake's body cells in draw order, head first.
    pub fn snake_body(&self) -> (r: Vec<Cell>)
        ensures
            r@ == self@.snake.cells,
    {
        self.snake.segments()
    }

    /// The accumulated milliseconds since the last state-relevant tick.
    pub fn waiting_ms(&self) -> (r: u64)
        ensures
            r == self@.waiting_ms,
    {
        self.waiting_time
    }
}

} // verus!

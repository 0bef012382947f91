//! The snake body: an ordered sequence of grid cells with a current heading
//! and a pending-growth flag. This component knows nothing about the grid
//! bounds, the food or the game lifecycle; the game engine owns one and drives
//! it through the operations below.

use vstd::prelude::*;

verus! {

/// A grid cell: a pair of signed integer coordinates.
#[derive(Clone, Copy, PartialEq, Eq, Structural, Debug)]
pub struct Cell {
    pub x: i32,
    pub y: i32,
}

/// One of the four headings the snake can have.
#[derive(Clone, Copy, PartialEq, Eq, Structural, Debug)]
pub enum Direction {
    Up,
    Down,
    Left,
    Right,
}

/// Steering for one step: keep the current heading, or turn toward a
/// direction. A turn toward the exact opposite of the current heading is
/// silently ignored, so the snake can never reverse into its own neck.
#[derive(Clone, Copy, PartialEq, Eq, Structural, Debug)]
pub enum Steering {
    Keep,
    Toward(Direction),
}

/// The unique opposite of a direction.
pub open spec fn opposite_spec(d: Direction) -> Direction {
    match d {
        Direction::Up => Direction::Down,
        Direction::Down => Direction::Up,
        Direction::Left => Direction::Right,
        Direction::Right => Direction::Left,
    }
}

impl Direction {
    /// The unique opposite of this direction.
    pub fn opposite(self) -> (r: Direction)
        ensures
            r == opposite_spec(self),
    {
        match self {
            Direction::Up => Direction::Down,
            Direction::Down => Direction::Up,
            Direction::Left => Direction::Right,
            Direction::Right => Direction::Left,
        }
    }
}

/// Coordinates from which a one-cell move in any direction stays
/// representable in an `i32`.
pub open spec fn cell_in_range(c: Cell) -> bool {
    i32::MIN < c.x < i32::MAX && i32::MIN < c.y < i32::MAX
}

/// The cell one unit away from `c` in direction `d`. The vertical axis grows
/// downward, as on a screen.
pub open spec fn next_cell_spec(c: Cell, d: Direction) -> Cell {
    match d {
        Direction::Up => Cell { x: c.x, y: (c.y - 1) as i32 },
        Direction::Down => Cell { x: c.x, y: (c.y + 1) as i32 },
        Direction::Left => Cell { x: (c.x - 1) as i32, y: c.y },
        Direction::Right => Cell { x: (c.x + 1) as i32, y: c.y },
    }
}

/// The heading one step takes: a requested turn wins unless it is the exact
/// opposite of the current heading, in which case the current heading is kept.
pub open spec fn resolve_spec(cur: Direction, s: Steering) -> Direction {
    match s {
        Steering::Keep => cur,
        Steering::Toward(d) => if d == opposite_spec(cur) {
            cur
        } else {
            d
        },
    }
}

/// Whether `c` is one of the cells of `cells`.
pub open spec fn on_body(cells: Seq<Cell>, c: Cell) -> bool {
    exists|i: int| 0 <= i < cells.len() && cells[i] == c
}

/// Mathematical model of a snake: body cells head first, current heading,
/// and whether the next advance keeps the tail.
#[verifier::ext_equal]
pub ghost struct SnakeView {
    pub cells: Seq<Cell>,
    pub dir: Direction,
    pub pending_growth: bool,
}

/// Well-formedness of a snake: at least one cell, all cells pairwise
/// distinct, and every cell far enough from the representation limits that a
/// one-cell move stays exact.
pub open spec fn snake_wf(v: SnakeView) -> bool {
    &&& v.cells.len() >= 1
    &&& forall|i: int, j: int| 0 <= i < j < v.cells.len() ==> v.cells[i] != v.cells[j]
    &&& forall|i: int| 0 <= i < v.cells.len() ==> cell_in_range(#[trigger] v.cells[i])
}

/// Where the head would move on one step steered by `s`.
pub open spec fn next_head_spec(v: SnakeView, s: Steering) -> Cell {
    next_cell_spec(v.cells[0], resolve_spec(v.dir, s))
}

/// How many leading body cells a moving head may not enter: the whole body
/// when a growth is pending (the tail stays put), else the body without the
/// tail cell, which vacates on the same step the head advances.
pub open spec fn blocked_len(v: SnakeView) -> int {
    if v.pending_growth {
        v.cells.len() as int
    } else {
        v.cells.len() - 1
    }
}

/// Whether `c` collides with the body for the purpose of a move: the
/// soon-to-vacate tail cell does not count unless a growth is pending.
pub open spec fn overlaps_spec(v: SnakeView, c: Cell) -> bool {
    exists|i: int| 0 <= i < blocked_len(v) && v.cells[i] == c
}

/// The body cells after one step steered by `s`: the new head in front, and
/// the tail kept exactly when a growth was pending.
pub open spec fn cells_after_advance(v: SnakeView, s: Steering) -> Seq<Cell> {
    seq![next_head_spec(v, s)] + if v.pending_growth {
        v.cells
    } else {
        v.cells.drop_last()
    }
}

/// The snake body: cells head first, plus the current heading and the
/// pending-growth flag.
pub struct Snake {
    body: Vec<Cell>,
    dir: Direction,
    pending_growth: bool,
}

impl View for Snake {
    type V = SnakeView;

    closed spec fn view(&self) -> SnakeView {
        SnakeView { cells: self.body@, dir: self.dir, pending_growth: self.pending_growth }
    }
}

impl Snake {
    /// A one-segment snake at `(x, y)`, heading right, with no growth pending.
    pub fn new(x: i32, y: i32) -> (s: Snake)
        requires
            cell_in_range(Cell { x: x, y: y }),
        ensures
            s@ == (SnakeView {
                cells: seq![Cell { x: x, y: y }],
                dir: Direction::Right,
                pending_growth: false,
            }),
            snake_wf(s@),
    {
        let mut body: Vec<Cell> = Vec::new();
        body.push(Cell { x, y });
        let s = Snake { body, dir: Direction::Right, pending_growth: false };
        proof {
            assert(s@.cells =~= seq![Cell { x: x, y: y }]);
        }
        s
    }

    /// The number of body cells.
    pub fn len(&self) -> (n: usize)
        ensures
            n == self@.cells.len(),
    {
        self.body.len()
    }

    /// The current head cell. No side effects.
    pub fn head_position(&self) -> (c: Cell)
        requires
            self@.cells.len() >= 1,
        ensures
            c == self@.cells[0],
    {
        self.body[0]
    }

    /// The current heading.
    pub fn head_direction(&self) -> (d: Direction)
        ensures
            d == self@.dir,
    {
        self.dir
    }

    /// Where the head would move if advanced now, steered by `s`. Pure; does
    /// not mutate the snake.
    pub fn next_head(&self, s: Steering) -> (c: Cell)
        requires
            snake_wf(self@),
        ensures
            c == next_head_spec(self@, s),
    {
        let head = self.body[0];
        let d = match s {
            Steering::Keep => self.dir,
            Steering::Toward(req) => if req == self.dir.opposite() {
                self.dir
            } else {
                req
            },
        };
        match d {
            Direction::Up => Cell { x: head.x, y: head.y - 1 },
            Direction::Down => Cell { x: head.x, y: head.y + 1 },
            Direction::Left => Cell { x: head.x - 1, y: head.y },
            Direction::Right => Cell { x: head.x + 1, y: head.y },
        }
    }

    /// Whether `c` collides with the body for the purpose of a move: the
    /// current tail cell is not counted, because it vacates on the same step
    /// the head advances, unless a growth is pending and the tail stays.
    pub fn overlaps_body(&self, c: Cell) -> (b: bool)
        requires
            self@.cells.len() >= 1,
        ensures
            b == overlaps_spec(self@, c),
    {
        let limit: usize = if self.pending_growth {
            self.body.len()
        } else {
            self.body.len() - 1
        };
        let mut i: usize = 0;
        while i < limit
            invariant
                limit == blocked_len(self@),
                0 <= i <= limit <= self.body.len(),
                self@.cells == self.body@,
                forall|k: int| 0 <= k < i ==> self@.cells[k] != c,
            decreases limit - i,
        {
            if self.body[i] == c {
                return true;
            }
            i += 1;
        }
        false
    }

    /// Whether `c` is occupied by any body cell, the tail included. Used for
    /// food-placement validity, where even the tail cell must stay free.
    pub fn occupies(&self, c: Cell) -> (b: bool)
        ensures
            b == on_body(self@.cells, c),
    {
        let mut i: usize = 0;
        while i < self.body.len()
            invariant
                0 <= i <= self.body.len(),
                self@.cells == self.body@,
                forall|k: int| 0 <= k < i ==> self@.cells[k] != c,
            decreases self.body.len() - i,
        {
            if self.body[i] == c {
                return true;
            }
            i += 1;
        }
        false
    }

    /// Marks that the next advance keeps the tail (used on food consumption).
    pub fn grow_pending(&mut self)
        ensures
            final(self)@ == (SnakeView { pending_growth: true, ..old(self)@ }),
    {
        self.pending_growth = true;
    }

    /// Commits one step steered by `s`: sets the heading by the same
    /// resolution rule as `next_head`, prepends the new head cell, and drops
    /// the tail cell unless a growth was pending, in which case the tail is
    /// kept, the length grows by one, and the flag is cleared.
    pub fn advance(&mut self, s: Steering)
        requires
            snake_wf(old(self)@),
            cell_in_range(next_head_spec(old(self)@, s)),
            !overlaps_spec(old(self)@, next_head_spec(old(self)@, s)),
        ensures
            final(self)@.cells == cells_after_advance(old(self)@, s),
            final(self)@.dir == resolve_spec(old(self)@.dir, s),
            !final(self)@.pending_growth,
            snake_wf(final(self)@),
    {
        let nh = self.next_head(s);
        let d = match s {
            Steering::Keep => self.dir,
            Steering::Toward(req) => if req == self.dir.opposite() {
                self.dir
            } else {
                req
            },
        };
        self.dir = d;
        if !self.pending_growth {
            self.body.pop();
        }
        self.pending_growth = false;
        self.body.insert(0, nh);
        proof {
            let ov = old(self)@;
            let retained = if ov.pending_growth {
                ov.cells
            } else {
                ov.cells.drop_last()
            };
            assert(self@.cells =~= cells_after_advance(ov, s));
            assert forall|i: int, j: int|
                0 <= i < j < self@.cells.len() implies self@.cells[i] != self@.cells[j] by {
                if i == 0 {
                    assert(self@.cells[j] == retained[j - 1]);
                    assert(retained[j - 1] == ov.cells[j - 1]);
                    assert(0 <= j - 1 < blocked_len(ov));
                    assert(ov.cells[j - 1] != nh);
                } else {
                    assert(self@.cells[i] == ov.cells[i - 1]);
                    assert(self@.cells[j] == ov.cells[j - 1]);
                }
            }
        }
    }

    /// The body cells, head first, as a fresh vector for a caller to read.
    pub fn segments(&self) -> (r: Vec<Cell>)
        ensures
            r@ == self@.cells,
    {
        let mut r: Vec<Cell> = Vec::new();
        let mut i: usize = 0;
        while i < self.body.len()
            invariant
                0 <= i <= self.body.len(),
                self@.cells == self.body@,
                r@ == self@.cells.take(i as int),
            decreases self.body.len() - i,
        {
            r.push(self.body[i]);
            proof {
                assert(r@ =~= self@.cells.take(i + 1));
            }
            i += 1;
        }
        proof {
            assert(r@ =~= self@.cells);
        }
        r
    }
}

} // verus!

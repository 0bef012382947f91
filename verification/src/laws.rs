//! Laws of the engine, stated over the spec-level step functions and proved
//! once for all inputs. The invariant law itself — body length at least one,
//! body cells pairwise distinct, existing food off the body — lives in
//! `game_inv` and `lemma_step_preserves_inv`, and in the `game_inv` ensures
//! of every public operation.

use vstd::prelude::*;

use crate::game::{
    game_inv, hits_border, in_interior, key_dir, key_step_spec, step_fatal, step_spec, GameView,
    KeyCode,
};
use crate::snake::{
    blocked_len, next_head_spec, opposite_spec, overlaps_spec, resolve_spec, Direction, Steering,
};

verus! {

/// While the game is running, a key requesting the exact opposite of the
/// current heading changes nothing: not the heading, not the body, not the
/// food, not the clock.
pub proof fn lemma_opposite_input_ignored(g: GameView, k: KeyCode)
    requires
        game_inv(g),
        g.started,
        !g.over,
        key_dir(k) == Some(opposite_spec(g.snake.dir)),
    ensures
        key_step_spec(g, k) == g,
{
}

/// A snake whose step resolves to heading right, with its head one cell
/// short of the right border, dies on that step and its body does not move.
pub proof fn lemma_border_death(g: GameView, s: Steering)
    requires
        game_inv(g),
        resolve_spec(g.snake.dir, s) == Direction::Right,
        g.snake.cells[0].x == g.width - 2,
    ensures
        step_spec(g, s).over,
        step_spec(g, s).snake == g.snake,
{
    assert(hits_border(next_head_spec(g.snake, s), g.width, g.height));
}

/// With its head two cells short of the right border, a step resolving to
/// heading right cannot die from the border check alone.
pub proof fn lemma_border_safe(g: GameView, s: Steering)
    requires
        game_inv(g),
        resolve_spec(g.snake.dir, s) == Direction::Right,
        in_interior(g.snake.cells[0], g.width, g.height),
        g.snake.cells[0].x == g.width - 3,
    ensures
        !hits_border(next_head_spec(g.snake, s), g.width, g.height),
{
}

/// Food lying exactly where the head will move makes that step grow the body
/// by one cell and consume the food at once.
pub proof fn lemma_growth_on_eating(g: GameView, s: Steering)
    requires
        game_inv(g),
        !step_fatal(g, s),
        g.food_exists,
        g.food == next_head_spec(g.snake, s),
    ensures
        step_spec(g, s).snake.cells.len() == g.snake.cells.len() + 1,
        !step_spec(g, s).food_exists,
{
}

/// A step whose target cell lies on the body — the soon-to-vacate tail not
/// counted — is fatal: the game ends and the body does not move.
pub proof fn lemma_self_collision_death(g: GameView, s: Steering)
    requires
        game_inv(g),
        overlaps_spec(g.snake, next_head_spec(g.snake, s)),
    ensures
        step_spec(g, s).over,
        step_spec(g, s).snake == g.snake,
{
}

/// Moving onto the very cell the tail is vacating is no collision: with no
/// growth pending, such a step is fatal only if it hits the border, and off
/// the border the snake survives it.
pub proof fn lemma_tail_vacate_survives(g: GameView, s: Steering)
    requires
        game_inv(g),
        next_head_spec(g.snake, s) == g.snake.cells[g.snake.cells.len() - 1],
        !hits_border(next_head_spec(g.snake, s), g.width, g.height),
    ensures
        !step_fatal(g, s),
        step_spec(g, s).over == g.over,
{
    let v = g.snake;
    let nh = next_head_spec(v, s);
    assert forall|i: int| 0 <= i < blocked_len(v) implies v.cells[i] != nh by {
        assert(v.cells[i] != v.cells[v.cells.len() - 1]);
    }
}

} // verus!

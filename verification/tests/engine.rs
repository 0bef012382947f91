use snake_engine::game::{direction_of_key, Game, KeyCode};
use snake_engine::snake::{Cell, Direction};

fn cell(x: i32, y: i32) -> Cell {
    Cell { x, y }
}

#[test]
fn initial_state() {
    let g = Game::new(20, 20);
    assert_eq!(g.snake_body(), vec![cell(2, 2)]);
    assert_eq!(g.heading(), Direction::Right);
    assert_eq!(g.food(), Some(cell(6, 4)));
    assert!(!g.is_started());
    assert!(!g.is_over());
    assert_eq!(g.size(), (20, 20));
    assert_eq!(g.waiting_ms(), 0);
}

#[test]
fn key_aliases_map_to_the_same_directions() {
    assert_eq!(direction_of_key(KeyCode::Up), Some(Direction::Up));
    assert_eq!(direction_of_key(KeyCode::Down), Some(Direction::Down));
    assert_eq!(direction_of_key(KeyCode::Left), Some(Direction::Left));
    assert_eq!(direction_of_key(KeyCode::Right), Some(Direction::Right));
    assert_eq!(direction_of_key(KeyCode::Z), Some(Direction::Up));
    assert_eq!(direction_of_key(KeyCode::S), Some(Direction::Down));
    assert_eq!(direction_of_key(KeyCode::Q), Some(Direction::Left));
    assert_eq!(direction_of_key(KeyCode::D), Some(Direction::Right));
    assert_eq!(direction_of_key(KeyCode::Other), None);
}

#[test]
fn unrecognized_key_is_a_no_op() {
    let mut g = Game::new(20, 20);
    g.key_pressed(KeyCode::Other);
    assert!(!g.is_started());
    assert_eq!(g.snake_body(), vec![cell(2, 2)]);
}

#[test]
fn first_key_starts_and_moves_immediately() {
    let mut g = Game::new(20, 20);
    g.key_pressed(KeyCode::Right);
    assert!(g.is_started());
    assert!(!g.is_over());
    assert_eq!(g.snake_body(), vec![cell(3, 2)]);
    assert_eq!(g.waiting_ms(), 0);
}

#[test]
fn opposite_direction_is_suppressed() {
    let mut g = Game::new(20, 20);
    g.key_pressed(KeyCode::Up);
    assert_eq!(g.heading(), Direction::Up);
    assert_eq!(g.snake_body(), vec![cell(2, 1)]);
    g.key_pressed(KeyCode::Down);
    assert_eq!(g.heading(), Direction::Up);
    assert_eq!(g.snake_body(), vec![cell(2, 1)]);
    g.key_pressed(KeyCode::S);
    assert_eq!(g.heading(), Direction::Up);
    assert_eq!(g.snake_body(), vec![cell(2, 1)]);
}

#[test]
fn border_death_one_cell_short_of_the_border() {
    let mut g = Game::new(20, 20);
    // from (2, 2), each press of Right is one immediate step along y = 2
    for _ in 0..15 {
        g.key_pressed(KeyCode::Right);
    }
    // head at (17, 2) == (width - 3, y): advancing right is not fatal
    assert_eq!(g.snake_body()[0], cell(17, 2));
    assert!(!g.is_over());
    g.key_pressed(KeyCode::Right);
    assert_eq!(g.snake_body()[0], cell(18, 2));
    assert!(!g.is_over());
    // head at (18, 2) == (width - 2, y): the next step hits the border ring
    g.key_pressed(KeyCode::Right);
    assert!(g.is_over());
    assert_eq!(g.snake_body()[0], cell(18, 2));
}

#[test]
fn growth_on_eating() {
    let mut g = Game::new(20, 20);
    g.key_pressed(KeyCode::Right);
    assert_eq!(g.snake_body(), vec![cell(3, 2)]);
    assert!(g.try_place_food(4, 2));
    assert_eq!(g.food(), Some(cell(4, 2)));
    let before = g.snake_body().len();
    g.key_pressed(KeyCode::Right);
    assert_eq!(g.snake_body().len(), before + 1);
    assert_eq!(g.snake_body(), vec![cell(4, 2), cell(3, 2)]);
    assert_eq!(g.food(), None);
}

/// Grows the snake to five cells with a deterministic chain of placed food,
/// ending with the body [(6,3), (6,2), (5,2), (4,2), (3,2)] heading down.
fn five_cell_snake() -> Game {
    let mut g = Game::new(20, 20);
    g.key_pressed(KeyCode::Right);
    for x in [4, 5, 6] {
        assert!(g.try_place_food(x, 2));
        g.key_pressed(KeyCode::Right);
    }
    assert!(g.try_place_food(6, 3));
    g.key_pressed(KeyCode::Down);
    assert_eq!(
        g.snake_body(),
        vec![cell(6, 3), cell(6, 2), cell(5, 2), cell(4, 2), cell(3, 2)]
    );
    assert!(!g.is_over());
    g
}

#[test]
fn self_collision_death() {
    let mut g = five_cell_snake();
    g.key_pressed(KeyCode::Left);
    assert_eq!(
        g.snake_body(),
        vec![cell(5, 3), cell(6, 3), cell(6, 2), cell(5, 2), cell(4, 2)]
    );
    assert!(!g.is_over());
    // moving up targets (5, 2), the third segment behind the head, which is
    // not the tail: fatal, and the body does not move
    g.key_pressed(KeyCode::Up);
    assert!(g.is_over());
    assert_eq!(
        g.snake_body(),
        vec![cell(5, 3), cell(6, 3), cell(6, 2), cell(5, 2), cell(4, 2)]
    );
}

#[test]
fn tail_vacate_survival() {
    let mut g = Game::new(20, 20);
    g.key_pressed(KeyCode::Right);
    for x in [4, 5, 6] {
        assert!(g.try_place_food(x, 2));
        g.key_pressed(KeyCode::Right);
    }
    assert_eq!(
        g.snake_body(),
        vec![cell(6, 2), cell(5, 2), cell(4, 2), cell(3, 2)]
    );
    // curl into a square: the head ends adjacent to the tail cell
    g.key_pressed(KeyCode::Down);
    g.key_pressed(KeyCode::Left);
    assert_eq!(
        g.snake_body(),
        vec![cell(5, 3), cell(6, 3), cell(6, 2), cell(5, 2)]
    );
    // moving up targets (5, 2), the cell the tail vacates this very step
    g.key_pressed(KeyCode::Up);
    assert!(!g.is_over());
    assert_eq!(
        g.snake_body(),
        vec![cell(5, 2), cell(5, 3), cell(6, 3), cell(6, 2)]
    );
}

#[test]
fn input_is_ignored_once_over() {
    let mut g = Game::new(20, 20);
    for _ in 0..17 {
        g.key_pressed(KeyCode::Right);
    }
    assert!(g.is_over());
    let body = g.snake_body();
    g.key_pressed(KeyCode::Up);
    g.key_pressed(KeyCode::Left);
    assert!(g.is_over());
    assert_eq!(g.snake_body(), body);
}

#[test]
fn reset_fires_only_past_the_restart_time() {
    let mut g = Game::new(20, 20);
    for _ in 0..17 {
        g.key_pressed(KeyCode::Right);
    }
    assert!(g.is_over());
    assert_eq!(g.waiting_ms(), 0);
    g.update(600);
    assert!(g.is_over());
    assert_eq!(g.waiting_ms(), 600);
    g.update(400);
    // exactly at the restart time: still over
    assert!(g.is_over());
    assert_eq!(g.waiting_ms(), 1000);
    g.update(1);
    // past the restart time: a fresh round is waiting for input
    assert!(!g.is_over());
    assert!(!g.is_started());
    assert_eq!(g.waiting_ms(), 0);
    let body = g.snake_body();
    assert_eq!(body.len(), 1);
    assert!(body[0].x >= 1 && body[0].x <= 18);
    assert!(body[0].y >= 1 && body[0].y <= 18);
    assert_eq!(g.heading(), Direction::Right);
    let food = g.food().expect("a nearly empty board gets food on reset");
    assert!(food.x >= 1 && food.x <= 18);
    assert!(food.y >= 1 && food.y <= 18);
    assert_ne!(food, body[0]);
}

#[test]
fn end_to_end_waiting_then_running() {
    let mut g = Game::new(20, 20);
    for _ in 0..3 {
        g.update(50);
        assert!(!g.is_started());
        assert_eq!(g.snake_body(), vec![cell(2, 2)]);
    }
    assert_eq!(g.waiting_ms(), 150);
    g.key_pressed(KeyCode::Right);
    assert!(g.is_started());
    assert_eq!(g.snake_body(), vec![cell(3, 2)]);
    g.update(200);
    assert_eq!(g.snake_body(), vec![cell(4, 2)]);
    assert_eq!(g.waiting_ms(), 0);
}

#[test]
fn tick_below_the_moving_period_does_not_move() {
    let mut g = Game::new(20, 20);
    g.key_pressed(KeyCode::Right);
    g.update(100);
    // exactly at the moving period: no step yet
    assert_eq!(g.snake_body(), vec![cell(3, 2)]);
    assert_eq!(g.waiting_ms(), 100);
    g.update(1);
    assert_eq!(g.snake_body(), vec![cell(4, 2)]);
}

#[test]
fn food_is_replaced_after_eating() {
    let mut g = Game::new(20, 20);
    g.key_pressed(KeyCode::Right);
    assert!(g.try_place_food(4, 2));
    g.key_pressed(KeyCode::Right);
    assert_eq!(g.food(), None);
    g.update(50);
    let food = g.food().expect("missing food is re-placed on the next tick");
    assert!(food.x >= 1 && food.x <= 18);
    assert!(food.y >= 1 && food.y <= 18);
    for c in g.snake_body() {
        assert_ne!(food, c);
    }
    // below the moving period, the snake itself did not move
    assert_eq!(g.snake_body(), vec![cell(4, 2), cell(3, 2)]);
}

#[test]
fn food_placement_rejects_border_and_body() {
    let mut g = Game::new(20, 20);
    assert!(!g.try_place_food(0, 5));
    assert!(!g.try_place_food(19, 5));
    assert!(!g.try_place_food(5, 0));
    assert!(!g.try_place_food(5, 19));
    assert!(!g.try_place_food(2, 2));
    assert_eq!(g.food(), Some(cell(6, 4)));
    assert!(g.try_place_food(10, 10));
    assert_eq!(g.food(), Some(cell(10, 10)));
}

#[test]
fn waiting_clock_saturates() {
    let mut g = Game::new(20, 20);
    g.update(u64::MAX);
    assert_eq!(g.waiting_ms(), u64::MAX);
    g.update(5);
    assert_eq!(g.waiting_ms(), u64::MAX);
    assert!(!g.is_started());
    assert_eq!(g.snake_body(), vec![cell(2, 2)]);
}

#[test]
fn small_grid_first_move_is_fatal() {
    // on a 3x3 grid the fixed start cell already touches the border ring, so
    // any first step dies on the border check
    let mut g = Game::new(3, 3);
    g.key_pressed(KeyCode::Right);
    assert!(g.is_over());
    assert_eq!(g.snake_body(), vec![cell(2, 2)]);
}

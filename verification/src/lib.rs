//! A tile-grid snake simulation engine.
//!
//! A player-controlled segmented body moves on a bounded grid, eats food to
//! grow, and dies on self-collision or on the impassable border ring. The
//! engine is a pure state machine: a caller feeds it discrete key events and
//! elapsed-time ticks, and reads the grid, body cells, food and lifecycle
//! flags back through a read-only query surface in order to render them.

pub mod game;
pub mod laws;
mod rng;
pub mod scale;
pub mod snake;

//! A snake game on a bounded grid: geometry, the snake's movement and growth
//! rules, food placement and the per-tick game state machine.

pub mod direction;
pub mod point;
pub mod snake;
pub mod command;
pub mod game;
pub mod render;

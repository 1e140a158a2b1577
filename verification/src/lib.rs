//! The rules of a snake game on a bounded grid: grid positions and headings,
//! the snake's body, and the per-tick state machine of a game session.

pub mod colors;
pub mod draw;
pub mod game;
pub mod game_lemmas;
pub mod physics;
mod random;
pub mod snake;
pub mod snake_lemmas;

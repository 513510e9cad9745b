//! Core of a grid-based snake game: the snake's body and movement, collision
//! detection, food placement, and the timed update/restart state machine.
//! Rendering and window plumbing live outside this crate; they drive the game
//! through `game::Game` and read it back through its accessors.

pub mod draw;
pub mod game;
pub mod snake;

//! A terminal snake game: the grid, the snake and the fruit, and the per-tick
//! rules that move, grow and end the game.

pub mod field;
pub mod fruit;
pub mod game;
pub mod input;
pub mod snake;

//! A grid-based snake game: positions and directions, the snake's body, and
//! the game's state machine, each with a contract over a mathematical model.

pub mod drawing;
pub mod game;
pub mod laws;
pub mod physics;
mod random;
pub mod snake;
pub mod timing;

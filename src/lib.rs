//! A grid snake game: the play area, the snake and its movement rules, food
//! placement, scoring, the screen state machine and the routing of input
//! events to each screen.

pub mod grid;
pub mod snake;
pub mod food;
pub mod screen;
pub mod game;
pub mod input;
pub mod font;

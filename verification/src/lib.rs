//! The simulation engine of a terminal snake game: the snake's body,
//! its turning, movement and growth rules, collision detection, and the
//! policy by which food is placed on the board.

pub mod food;
pub mod game;
pub mod palette;
pub mod point;
pub mod random;
pub mod snake;
pub mod vector;

pub use food::{Food, FoodKind};
pub use game::{frame_delay_millis, tick, TickOutcome};
pub use point::{Boundaries, Point};
pub use snake::Snake;

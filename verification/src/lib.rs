//! Simulation core of a grid-based snake game: the arena and its wall ring,
//! the snake's movement and growth model, collision detection, food
//! placement, and the Playing/GameOver state machine.
//!
//! Rendering, window management and raw input polling are not part of this
//! crate; a host drives the state machine through its narrow interface and
//! reads back a snapshot of entity positions each frame.

pub mod collision;
pub mod food;
pub mod game;
pub mod grid;
pub mod snake;

//! Grid-based snake game engine: a bounded board, a segment chain that moves
//! one cell per simulation tick, food that makes it grow, and the pacing
//! state machine that rate-limits direction changes and simulation ticks.
//!
//! Rendering, input capture and the host timing loop are collaborators that
//! live outside this crate; they read the game state and call the mutators
//! declared here.

pub mod board;
pub mod direction;
pub mod game;
pub mod item;
pub mod laws;
pub mod random;
pub mod scheduler;
pub mod snake;

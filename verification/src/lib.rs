//! A turn-based crisis-management simulation engine.
//!
//! A player issues one directive per decision point against a simulated
//! geopolitical world; the world reacts through a deterministic pseudo-random
//! stream, and the game ends when a terminal condition is reached or the
//! caller's turn cap runs out.
//!
//! World-state scalars are fixed-point values in thousandths: the bounded
//! metrics range over `0..=1000`, standing for the unit interval.

pub mod rng;
pub mod state;
pub mod text;
pub mod display;
pub mod document;
pub mod feedback;
pub mod game;

//! Movement resolution for a grid-based block-pushing puzzle game.
pub mod grid;
pub mod input;
pub mod level;
pub mod walls;
pub mod player;
pub mod laws;

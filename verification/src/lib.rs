//! Runtime core of a small turn-based puzzle game: a scene stack driven by a
//! fixed-timestep loop, a semantic input binding, and the sudoku board model
//! that the one concrete scene manipulates.

pub mod board;
pub mod input;
pub mod scenes;
pub mod shell;
pub mod timing;
pub mod world;


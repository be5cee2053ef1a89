//! A small Game of Life service library.
//!
//! `engine` holds the cellular-automaton rule: the next generation of a 2-D
//! boolean grid, with ragged rows tolerated and every out-of-bounds neighbor
//! counted as dead. `state` owns the single current grid, steps it, and
//! renders it as display text. `registry` models the service-discovery side:
//! registration names and peer filtering.

pub mod engine;
pub mod registry;
pub mod state;

//! A verified cellular garden: a four-concept automaton over a square grid,
//! stepped through a double-buffered engine that merges a capped batch of
//! queued cell mutations into every step and republishes the completed
//! buffer to readers.

pub mod cell;
pub mod config;
pub mod engine;
pub mod grid;
pub mod laws;
pub mod queue;
pub mod rules;

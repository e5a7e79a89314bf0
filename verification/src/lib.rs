//! A double-buffered cellular automaton on a torus, with the frame
//! sequencing that decides which buffer each stage reads and writes.

pub mod device;
pub mod grid;
pub mod present;
pub mod rule;
pub mod seed;
pub mod state;
pub mod vertices;

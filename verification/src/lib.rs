//! Mutation rules of the Loki consensus fuzzer.
//!
//! The fuzzer replays consensus messages that a node has seen, after
//! perturbing their counters (rounds, epochs, versions, timestamps, block
//! counts) with random draws.  The library holds the plain fields of the
//! messages that these rules read, states exactly what each rule makes of a
//! given draw, and leaves the drawing itself to the random number generator.
#![allow(non_snake_case)]

pub mod model;
pub mod counters;
pub mod mutate;
pub mod generate;
pub mod schedule;
pub mod laws;
mod random;

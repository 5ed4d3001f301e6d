//! A differential benchmarking harness: one computation is run under a
//! from-scratch engine and under an incremental engine, over an input that is
//! edited between rounds, and each round's costs and outputs are recorded.
//!
//! - [`params`]: the configuration of an experiment.
//! - [`strategy`]: the capabilities that an experiment is made of:
//!   generating an input, editing it, computing on it.
//! - [`random`]: the seeded random source that generation and editing draw
//!   from.
//! - [`engine`]: the engine library's switch between the two engines.
//! - [`metrics`]: measuring one phase of a round, and the right to record
//!   what an engine does meanwhile.
//! - [`sample`]: the state of an experiment, its first round and the rounds
//!   that follow, with what holds of the inputs of the two tracks.
//! - [`experiment`]: experiments behind one interface, run from first round
//!   to last.
//! - [`catalog`]: the experiments known by name.
//! - [`error`]: what ends an experiment early.

pub mod catalog;
pub mod engine;
pub mod error;
pub mod experiment;
pub mod metrics;
pub mod params;
pub mod random;
pub mod sample;
pub mod strategy;

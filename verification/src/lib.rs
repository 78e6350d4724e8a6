//! A multi-instance simulation orchestration core.
//!
//! The crate manages a set of independent simulation instances, each holding
//! private state (a fixed population of entities, a seeded pseudo-random
//! generator and a pair of running counters), drives each instance through a
//! staged mutate, record, reset pipeline for a configurable number of steps
//! per outer tick, and aggregates per-instance snapshots into an append-only
//! ordered store that an external consumer reads.

pub mod errors;
pub mod probability;
pub mod registry;
pub mod rng;
pub mod simulation;

//! Orchestration core of a basic-circuit witness generator: job acquisition
//! with sampling, retry-aware job bookkeeping, reconstruction of the witness
//! input from chain data, and the naming and recording of produced artifacts.

pub mod bookkeeping;
pub mod bytecodes;
pub mod generator;
pub mod input;
pub mod job;
pub mod keys;
pub mod persist;
pub mod queue;
pub mod sampling;
pub mod store;
pub mod types;
pub mod witness;

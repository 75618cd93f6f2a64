//! A property-based fuzzing engine for smart contracts.
//!
//! Given the interface of a deployed contract, the engine classifies the
//! callable surface into state-mutating targets and read-only boolean
//! properties, repeatedly invokes targets with randomly synthesized
//! arguments, and checks every property after each call, stopping on the
//! first violation or after a fixed step budget.
//!
//! The crate holds the campaign core: classification, type-directed input
//! synthesis, the step state machine and its termination rules, and the
//! rendering of traces and verdicts.  Compiling contracts, deploying them,
//! and talking to a live node are left to the embedding program, which
//! drives the state machine and performs each requested call.

pub mod abi;
pub mod campaign;
pub mod errors;
pub mod report;
pub mod rng;
pub mod value;

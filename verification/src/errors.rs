//! The failure taxonomy of a campaign.
//!
//! Every fatal failure carries the function name and the step index it
//! arose at, so a caller can reproduce it.  A violated property is not an
//! error: it is the intended detection outcome, reported through the
//! campaign's terminal status instead.

use vstd::prelude::*;
use crate::abi::ParameterType;

verus! {

/// A fatal campaign failure.  `step` is the 1-based index of the step the
/// failure arose at; classification-time failures carry step 0.
#[derive(Clone, Debug, PartialEq, Eq)]
pub enum FuzzError {
    /// A declared parameter type has no synthesis rule.
    UnsupportedType { function: String, step: usize, parameter: ParameterType },
    /// A property's declared or observed shape is not a single boolean.
    InvariantShape { function: String, step: usize },
    /// The execution environment rejected or failed a call.
    Execution { function: String, step: usize },
}

} // verus!

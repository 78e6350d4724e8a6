use vstd::prelude::*;

verus! {

/// Invalid construction parameters. This error is fatal at construction
/// time: an instance whose configuration is rejected is never admitted to
/// the registry, and no retry is attempted.
#[derive(Clone, Copy, Debug, PartialEq, Eq, Structural)]
pub enum ConfigurationError {
    /// The probability parameter lies outside [0, 1], or its ratio cannot
    /// be represented by the machine integers that carry it.
    ProbabilityOutOfRange,
    /// The entity count is not a positive integer.
    NonPositiveEntityCount,
    /// The steps-per-tick multiplier is not a positive integer.
    NonPositiveStepCount,
}

} // verus!

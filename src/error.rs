use vstd::prelude::*;

verus! {

/// Why a configuration value was refused.
#[derive(Debug, PartialEq, Eq)]
pub enum ConfigError {
    /// A monotone-constraint value outside {-1, 0, 1}.
    InvalidConstraint { feature: usize, value: i32 },
    /// A feature index that is not a non-negative decimal integer.
    InvalidFeatureIndex,
    /// A budget that is not strictly positive.
    NonPositiveBudget,
    /// A quantile that does not lie strictly between 0 and 1.
    QuantileOutOfRange,
}

/// The operation does not apply to the configured objective.
#[derive(Debug, PartialEq, Eq)]
pub struct UnsupportedOperation;

} // verus!

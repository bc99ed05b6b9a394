//! Errors reported instead of degenerate numeric output.
use vstd::prelude::*;

verus! {

/// Why a pricing or sampling request is refused before any work is done.
#[derive(Clone, Copy, Debug, PartialEq, Eq, Structural)]
pub enum PricingError {
    /// Spot, strike, time to expiry or volatility is not strictly positive.
    NonPositiveParameter,
    /// A sampler was asked to run no trials.
    ZeroTrials,
    /// The sequential sampler's unbiased variance needs at least two trials.
    SingleTrial,
    /// A convergence study with step size zero would never end.
    ZeroStepSize,
}

} // verus!

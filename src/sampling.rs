//! Trial-count rules of the single-threaded sampler.
use vstd::prelude::*;
use crate::error::PricingError;

verus! {

/// Single-threaded sampler whose standard error uses the unbiased (N - 1)
/// sample variance of the discounted call payoffs.
pub struct MonteCarloEngine;

impl MonteCarloEngine {
    /// Checks that `trials` draws give a defined estimate: none is refused,
    /// and so is one, whose sample variance would divide by zero.
    pub fn check_trial_count(trials: usize) -> (r: Result<(), PricingError>)
        ensures
            trials == 0 <==> r == Err::<(), PricingError>(PricingError::ZeroTrials),
            trials == 1 <==> r == Err::<(), PricingError>(PricingError::SingleTrial),
            trials >= 2 <==> r is Ok,
    {
        if trials == 0 {
            Err(PricingError::ZeroTrials)
        } else if trials == 1 {
            Err(PricingError::SingleTrial)
        } else {
            Ok(())
        }
    }
}

} // verus!

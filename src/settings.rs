//! Default request settings for the sampling endpoints.
use vstd::prelude::*;

verus! {

/// Number of trials a sampling request runs when it names none.
pub const DEFAULT_NUM_SIMULATIONS: usize = 100_000;

/// Largest trial count a convergence study reaches when it names none.
pub const DEFAULT_MAX_SIMULATIONS: usize = 10_000_000;

/// Spacing between the trial counts of a convergence study when it names none.
pub const DEFAULT_STEP_SIZE: usize = 500_000;

/// Trial count used by a sampling request that does not give one.
pub fn default_num_simulations() -> (r: usize)
    ensures
        r == DEFAULT_NUM_SIMULATIONS,
{
    DEFAULT_NUM_SIMULATIONS
}

/// Largest trial count of a convergence study that does not give one.
pub fn default_max_simulations() -> (r: usize)
    ensures
        r == DEFAULT_MAX_SIMULATIONS,
{
    DEFAULT_MAX_SIMULATIONS
}

/// Step between trial counts of a convergence study that does not give one.
pub fn default_step_size() -> (r: usize)
    ensures
        r == DEFAULT_STEP_SIZE,
{
    DEFAULT_STEP_SIZE
}

} // verus!

//! Trial counts at which a convergence study runs the sequential sampler.
use vstd::prelude::*;
use crate::error::PricingError;
use vstd::arithmetic::div_mod::lemma_fundamental_div_mod;

verus! {

/// The counts `step, 2 * step, 3 * step, ...` up to and including `max`,
/// in increasing order; a zero step is refused before any count is made.
pub fn convergence_schedule(step: usize, max: usize) -> (r: Result<Vec<usize>, PricingError>)
    ensures
        step == 0 <==> r == Err::<Vec<usize>, PricingError>(PricingError::ZeroStepSize),
        step > 0 <==> r is Ok,
        r matches Ok(counts) ==> {
            &&& counts.len() == max / step
            &&& forall|i: int| 0 <= i < counts.len() ==> #[trigger] counts[i] == (i + 1) * step
        },
{
    if step == 0 {
        return Err(PricingError::ZeroStepSize);
    }
    let n: usize = max / step;
    proof {
        lemma_fundamental_div_mod(max as int, step as int);
    }
    let mut counts: Vec<usize> = Vec::new();
    let mut i: usize = 0;
    while i < n
        invariant
            step > 0,
            n == max / step,
            max == step * n + max % step,
            0 <= max % step,
            i <= n,
            counts.len() == i,
            forall|j: int| 0 <= j < counts.len() ==> #[trigger] counts[j] == (j + 1) * step,
        decreases n - i,
    {
        assert((i + 1) * step <= max) by (nonlinear_arith)
            requires
                i < n,
                max == step * n + max % step,
                0 <= max % step,
                step > 0,
        ;
        counts.push((i + 1) * step);
        i = i + 1;
    }
    Ok(counts)
}

} // verus!

//! Work plan of the chunked, multi-worker sampler, and the exact-arithmetic
//! model of the per-chunk accumulators that its reduction merges.
use vstd::prelude::*;
use crate::error::PricingError;

verus! {

/// Trials handled by one worker task; only the final chunk may be smaller.
pub const CHUNK_SIZE: usize = 10_000;

/// Sum of a sequence of trial counts.
pub open spec fn total_of(sizes: Seq<usize>) -> int
    decreases sizes.len(),
{
    if sizes.len() == 0 {
        0
    } else {
        total_of(sizes.drop_last()) + sizes.last()
    }
}

/// Number of chunks that `total` trials are split into.
pub open spec fn chunk_count(total: int) -> int {
    (total + CHUNK_SIZE - 1) / (CHUNK_SIZE as int)
}

/// Trials of chunk `idx`: from `idx * CHUNK_SIZE` up to `total`, at most `CHUNK_SIZE`.
pub open spec fn chunk_len(idx: int, total: int) -> int {
    if total - idx * CHUNK_SIZE < CHUNK_SIZE {
        total - idx * CHUNK_SIZE
    } else {
        CHUNK_SIZE as int
    }
}

/// Running sums that one worker keeps over its trials, in exact arithmetic:
/// discounted call payoffs, discounted put payoffs, squared discounted call
/// payoffs, and the number of trials.
pub struct Tally {
    pub call_sum: int,
    pub put_sum: int,
    pub call_sq_sum: int,
    pub count: int,
}

/// The accumulator of no trials.
pub open spec fn empty_tally() -> Tally {
    Tally { call_sum: 0, put_sum: 0, call_sq_sum: 0, count: 0 }
}

/// The accumulator of a single trial with discounted payoffs `(call, put)`.
pub open spec fn trial_tally(payoff: (int, int)) -> Tally {
    Tally { call_sum: payoff.0, put_sum: payoff.1, call_sq_sum: payoff.0 * payoff.0, count: 1 }
}

/// Field-wise sum of two accumulators: the reduction step.
pub open spec fn merge(a: Tally, b: Tally) -> Tally {
    Tally {
        call_sum: a.call_sum + b.call_sum,
        put_sum: a.put_sum + b.put_sum,
        call_sq_sum: a.call_sq_sum + b.call_sq_sum,
        count: a.count + b.count,
    }
}

/// Accumulator of a run of trials, folded one trial at a time.
pub open spec fn tally_of(trials: Seq<(int, int)>) -> Tally
    decreases trials.len(),
{
    if trials.len() == 0 {
        empty_tally()
    } else {
        merge(tally_of(trials.drop_last()), trial_tally(trials.last()))
    }
}

/// Merge of the accumulators of consecutive chunks of `trials`, the chunks
/// having the lengths `sizes` in order.
pub open spec fn merge_chunks(trials: Seq<(int, int)>, sizes: Seq<usize>) -> Tally
    decreases sizes.len(),
{
    if sizes.len() == 0 {
        empty_tally()
    } else {
        let cut = trials.len() - sizes.last();
        merge(merge_chunks(trials.take(cut), sizes.drop_last()), tally_of(trials.skip(cut)))
    }
}

/// A sum of trial counts is never negative.
proof fn lemma_total_nonneg(sizes: Seq<usize>)
    ensures
        total_of(sizes) >= 0,
    decreases sizes.len(),
{
    if sizes.len() > 0 {
        lemma_total_nonneg(sizes.drop_last());
    }
}

/// Folding a concatenation is merging the folds of its parts.
proof fn lemma_tally_concat(a: Seq<(int, int)>, b: Seq<(int, int)>)
    ensures
        tally_of(a + b) == merge(tally_of(a), tally_of(b)),
    decreases b.len(),
{
    if b.len() == 0 {
        assert(a + b == a);
    } else {
        assert((a + b).drop_last() == a + b.drop_last());
        assert((a + b).last() == b.last());
        lemma_tally_concat(a, b.drop_last());
    }
}

/// Merging accumulators is commutative and associative, and the empty
/// accumulator is its identity: the reduction does not depend on the order in
/// which workers finish nor on how their results are grouped.
pub proof fn lemma_merge_laws(a: Tally, b: Tally, c: Tally)
    ensures
        merge(a, b) == merge(b, a),
        merge(merge(a, b), c) == merge(a, merge(b, c)),
        merge(a, empty_tally()) == a,
{
}

/// For any split of a fixed run of trials into consecutive chunks, merging
/// the chunks' accumulators gives exactly the accumulator of the whole run:
/// the aggregate sums do not depend on where the chunk boundaries fall.
pub proof fn lemma_merge_independent_of_chunking(trials: Seq<(int, int)>, sizes: Seq<usize>)
    requires
        total_of(sizes) == trials.len(),
    ensures
        merge_chunks(trials, sizes) == tally_of(trials),
    decreases sizes.len(),
{
    if sizes.len() > 0 {
        lemma_total_nonneg(sizes.drop_last());
        let cut = trials.len() - sizes.last();
        let front = trials.take(cut);
        let back = trials.skip(cut);
        lemma_merge_independent_of_chunking(front, sizes.drop_last());
        assert(front + back =~= trials);
        lemma_tally_concat(front, back);
    }
}

/// Chunked sampler: splits a trial count into worker-sized chunks.
pub struct ParallelMonteCarloEngine;

impl ParallelMonteCarloEngine {
    /// Checks that `trials` draws give a defined estimate: the population
    /// variance is defined for any positive count, so only zero is refused.
    pub fn check_trial_count(trials: usize) -> (r: Result<(), PricingError>)
        ensures
            trials == 0 <==> r == Err::<(), PricingError>(PricingError::ZeroTrials),
            trials > 0 <==> r is Ok,
    {
        if trials == 0 {
            Err(PricingError::ZeroTrials)
        } else {
            Ok(())
        }
    }

    /// Trial counts of the chunks for `total` trials, in chunk order: every
    /// chunk holds `CHUNK_SIZE` trials but the last, which holds the rest.
    pub fn chunk_sizes(total: usize) -> (r: Vec<usize>)
        ensures
            r.len() == chunk_count(total as int),
            forall|i: int| 0 <= i < r.len() ==> #[trigger] r[i] as int == chunk_len(i, total as int),
            forall|i: int| 0 <= i < r.len() ==> 0 < #[trigger] r[i] <= CHUNK_SIZE,
            total_of(r@) == total,
    {
        let mut sizes: Vec<usize> = Vec::new();
        let mut done: usize = 0;
        while done < total
            invariant
                done <= total,
                done as int == total_of(sizes@),
                sizes.len() * CHUNK_SIZE <= total ==> done == sizes.len() * CHUNK_SIZE,
                sizes.len() * CHUNK_SIZE > total ==> done == total,
                sizes.len() == 0 || (sizes.len() - 1) * CHUNK_SIZE < total,
                forall|i: int| 0 <= i < sizes.len() ==> #[trigger] sizes[i] as int == chunk_len(i, total as int),
                forall|i: int| 0 <= i < sizes.len() ==> 0 < #[trigger] sizes[i] <= CHUNK_SIZE,
            decreases total - done,
        {
            let rest: usize = total - done;
            let len: usize = if rest < CHUNK_SIZE { rest } else { CHUNK_SIZE };
            let ghost before = sizes@;
            sizes.push(len);
            assert(sizes@.drop_last() == before);
            done = done + len;
        }
        sizes
    }
}

} // verus!

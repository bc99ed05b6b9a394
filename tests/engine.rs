use quantbox::parallel::CHUNK_SIZE;
use quantbox::{
    convergence_schedule, default_max_simulations, default_num_simulations, default_step_size,
    MonteCarloEngine, ParallelMonteCarloEngine, PricingError,
};

#[test]
fn defaults_match_reference_configuration() {
    assert_eq!(default_num_simulations(), 100_000);
    assert_eq!(default_step_size(), 500_000);
    assert_eq!(default_max_simulations(), 10_000_000);
}

#[test]
fn chunk_sizes_of_zero_trials_is_empty() {
    assert!(ParallelMonteCarloEngine::chunk_sizes(0).is_empty());
}

#[test]
fn chunk_sizes_of_one_trial() {
    assert_eq!(ParallelMonteCarloEngine::chunk_sizes(1), vec![1]);
}

#[test]
fn chunk_sizes_exact_multiple() {
    assert_eq!(ParallelMonteCarloEngine::chunk_sizes(10_000), vec![10_000]);
    let sizes = ParallelMonteCarloEngine::chunk_sizes(100_000);
    assert_eq!(sizes.len(), 10);
    assert!(sizes.iter().all(|&s| s == CHUNK_SIZE));
}

#[test]
fn chunk_sizes_final_chunk_is_smaller() {
    assert_eq!(ParallelMonteCarloEngine::chunk_sizes(25_000), vec![10_000, 10_000, 5_000]);
    assert_eq!(ParallelMonteCarloEngine::chunk_sizes(10_001), vec![10_000, 1]);
}

#[test]
fn chunk_sizes_cover_every_trial() {
    for total in [9_999usize, 123_456, 1_000_000] {
        let sizes = ParallelMonteCarloEngine::chunk_sizes(total);
        assert_eq!(sizes.iter().sum::<usize>(), total);
        assert_eq!(sizes.len(), (total + CHUNK_SIZE - 1) / CHUNK_SIZE);
    }
}

#[test]
fn chunked_sums_equal_whole_sums() {
    let total: usize = 34_567;
    let payoffs: Vec<i64> = (0..total as i64).map(|i| (i * 7919) % 1_000 - 300).collect();
    let whole: i64 = payoffs.iter().sum();
    let whole_sq: i64 = payoffs.iter().map(|p| p * p).sum();
    let mut merged = (0i64, 0i64, 0usize);
    let mut start = 0usize;
    for size in ParallelMonteCarloEngine::chunk_sizes(total) {
        let chunk = &payoffs[start..start + size];
        merged.0 += chunk.iter().sum::<i64>();
        merged.1 += chunk.iter().map(|p| p * p).sum::<i64>();
        merged.2 += size;
        start += size;
    }
    assert_eq!(merged, (whole, whole_sq, total));
}

#[test]
fn sequential_sampler_trial_counts() {
    assert_eq!(MonteCarloEngine::check_trial_count(0), Err(PricingError::ZeroTrials));
    assert_eq!(MonteCarloEngine::check_trial_count(1), Err(PricingError::SingleTrial));
    assert_eq!(MonteCarloEngine::check_trial_count(2), Ok(()));
    assert_eq!(MonteCarloEngine::check_trial_count(1_000_000), Ok(()));
}

#[test]
fn parallel_sampler_trial_counts() {
    assert_eq!(ParallelMonteCarloEngine::check_trial_count(0), Err(PricingError::ZeroTrials));
    assert_eq!(ParallelMonteCarloEngine::check_trial_count(1), Ok(()));
    assert_eq!(ParallelMonteCarloEngine::check_trial_count(10_000), Ok(()));
}

#[test]
fn convergence_schedule_rejects_zero_step() {
    assert_eq!(convergence_schedule(0, 1_000), Err(PricingError::ZeroStepSize));
    assert_eq!(convergence_schedule(0, 0), Err(PricingError::ZeroStepSize));
}

#[test]
fn convergence_schedule_reference_configuration() {
    let counts = convergence_schedule(default_step_size(), default_max_simulations()).unwrap();
    assert_eq!(counts.len(), 20);
    assert_eq!(counts[0], 500_000);
    assert_eq!(counts[19], 10_000_000);
    assert!(counts.windows(2).all(|w| w[1] - w[0] == 500_000));
}

#[test]
fn convergence_schedule_includes_max_when_reached() {
    assert_eq!(convergence_schedule(3, 9).unwrap(), vec![3, 6, 9]);
    assert_eq!(convergence_schedule(3, 10).unwrap(), vec![3, 6, 9]);
}

#[test]
fn convergence_schedule_step_above_max_is_empty() {
    assert!(convergence_schedule(3, 2).unwrap().is_empty());
}

#[test]
fn convergence_schedule_near_usize_max() {
    let counts = convergence_schedule(usize::MAX / 2, usize::MAX).unwrap();
    assert_eq!(counts, vec![usize::MAX / 2, usize::MAX - 1]);
}

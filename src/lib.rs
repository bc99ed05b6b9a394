//! Integer and structural core of a European option pricing service:
//! trial-count planning for the sampling engines, the convergence schedule,
//! the heatmap grid, and the decisions taken around market-data requests.

pub mod convergence;
pub mod error;
pub mod heatmap;
pub mod market;
pub mod option_type;
pub mod parallel;
pub mod sampling;
pub mod settings;

pub use convergence::convergence_schedule;
pub use error::PricingError;
pub use heatmap::HeatmapData;
pub use option_type::OptionType;
pub use parallel::ParallelMonteCarloEngine;
pub use sampling::MonteCarloEngine;
pub use settings::{default_max_simulations, default_num_simulations, default_step_size};

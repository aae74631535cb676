//! The optimization request, the two solvers' decisions, and the Monte
//! Carlo bookkeeping built on them.

pub mod analytical;
pub mod brute_force;
pub mod configuration;
pub mod error;
pub mod monte_carlo;
pub mod problem;
pub mod search;
pub mod select;
pub mod solution;
pub mod uncertainty;

pub use analytical::AnalyticalOptimizer;
pub use brute_force::BruteForceOptimizer;
pub use configuration::StageSpec;
pub use error::{Infeasibility, OptimizeError, UnsupportedShape};
pub use monte_carlo::{MonteCarloResults, MonteCarloRunner};
pub use problem::{ConstraintError, Constraints, Problem, ProblemError};
pub use select::SelectedOptimizer;
pub use solution::Solution;
pub use uncertainty::{ParameterSampler, Uncertainty};

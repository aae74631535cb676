//! What the command line decides before and after the solvers run.

pub mod args;
pub mod commands;

pub use args::{
    CalculateArgs,
    CalculateOutputFormat,
    EnginesArgs,
    Gravity,
    OptimizeArgs,
    OptimizeOutputFormat,
    OptimizerChoice,
    OutputFormat,
    UncertaintyLevel,
};

//! Decision core of a rocket staging optimizer.
//!
//! Every physical quantity is an IEEE-754 double held by its bit pattern.
//! This crate orders and tests such values, validates optimization
//! problems, enumerates and selects stage configurations, and keeps the
//! books of Monte Carlo runs. Arithmetic on the quantities is the caller's:
//! it evaluates a configuration and hands the numbers back.

pub mod cli;
pub mod engine;
pub mod optimizer;
pub mod output;
pub mod stage;
pub mod units;

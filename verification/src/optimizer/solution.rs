//! What a solver returns.

use vstd::prelude::*;
use vstd::string::*;

use crate::stage::Rocket;
use crate::units::{Scalar, Velocity};

verus! {

/// The rocket that a solver found, and how it found it.
#[derive(Debug, Clone)]
pub struct Solution {
    /// The rocket.
    pub rocket: Rocket,
    /// Achieved velocity change less the target.
    pub margin: Velocity,
    /// How many configurations the solver evaluated.
    pub iterations: u64,
    /// Wall-clock time of the search, in milliseconds.
    pub runtime_ms: u64,
    /// The solver's name.
    pub optimizer_name: String,
}

impl Solution {
    /// Whether the rocket reaches the target.
    pub open spec fn reaches_target(&self) -> bool {
        self.margin.value.spec_ge(Scalar::spec_zero())
    }

    /// A solution without runtime and solver name.
    pub fn new(rocket: Rocket, margin: Velocity, iterations: u64) -> (r: Solution)
        ensures
            r.rocket == rocket,
            r.margin == margin,
            r.iterations == iterations,
            r.runtime_ms == 0,
            r.optimizer_name@ == Seq::<char>::empty(),
    {
        Solution { rocket, margin, iterations, runtime_ms: 0, optimizer_name: String::new() }
    }

    /// A solution with the search's runtime and the solver's name.
    pub fn with_metadata(
        rocket: Rocket,
        margin: Velocity,
        iterations: u64,
        runtime_ms: u64,
        optimizer_name: &str,
    ) -> (r: Solution)
        ensures
            r.rocket == rocket,
            r.margin == margin,
            r.iterations == iterations,
            r.runtime_ms == runtime_ms,
            r.optimizer_name@ == optimizer_name@,
    {
        Solution {
            rocket,
            margin,
            iterations,
            runtime_ms,
            optimizer_name: String::from_str(optimizer_name),
        }
    }

    /// Whether the rocket reaches the target: the margin is not negative.
    pub fn meets_target(&self) -> (r: bool)
        ensures
            r == self.reaches_target(),
    {
        self.margin.value.ge(Scalar::zero())
    }
}

} // verus!

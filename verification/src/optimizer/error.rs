//! Why an optimization did not return a rocket.

use vstd::prelude::*;

use crate::stage::TwrError;
use crate::units::{Ratio, Velocity};

use super::problem::ProblemError;

verus! {

/// Why no rocket in the search space meets the request.
#[derive(Debug, Clone, Copy, PartialEq, Eq, Structural)]
pub enum Infeasibility {
    /// The mass ratio that a stage would need is below 1.
    MassRatioBelowOne,
    /// The structure alone weighs too much for the mass ratio that a stage
    /// would need.
    StructuralRatioTooHigh { structural_ratio: Ratio, required_ratio: Ratio },
    /// The propellant mass that solves the stage is not positive.
    NonPositivePropellant,
    /// No allowed number of engines lifts the stage.
    InsufficientThrust { min_twr: Ratio, max_engines: u32 },
    /// The assembled rocket breaks a thrust-to-weight rule.
    Twr(TwrError),
    /// The assembled rocket misses the target by more than the tolerance.
    BelowTarget { margin: Velocity },
    /// No configuration of the grid is feasible and fast enough.
    NoConfiguration { iterations: u64 },
}

/// Why a solver cannot take a problem of this shape.
#[derive(Debug, Clone, Copy, PartialEq, Eq, Structural)]
pub enum UnsupportedShape {
    /// The solver takes one engine type and the problem offers another
    /// number of them.
    EngineTypes { offered: usize },
    /// The solver takes a stage count fixed at two; the problem fixes
    /// `requested`, or leaves the count open.
    StageCount { requested: Option<u32> },
}

/// An optimization that returned no rocket.
#[derive(Debug, Clone, Copy, PartialEq, Eq, Structural)]
pub enum OptimizeError {
    /// The problem is malformed.
    InvalidProblem(ProblemError),
    /// The problem is well formed and has no solution in the search space.
    Infeasible { reason: Infeasibility },
    /// The solver does not apply; the general solver does.
    Unsupported { reason: UnsupportedShape },
}

} // verus!

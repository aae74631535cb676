//! Which solver takes a problem.

use vstd::prelude::*;

use super::problem::Problem;

verus! {

/// One of the two solvers.
#[derive(Debug, Clone, Copy, PartialEq, Eq, Structural)]
pub enum SelectedOptimizer {
    /// The closed-form solver for two stages of one engine type.
    Analytical,
    /// The grid search.
    BruteForce,
}

impl SelectedOptimizer {
    /// The solver for `problem`: the closed-form solver where exactly one
    /// engine type is offered and the stage count is fixed at 2, the grid
    /// search otherwise.
    pub open spec fn spec_automatic(problem: &Problem) -> SelectedOptimizer {
        if problem.single() && problem.stage_count == Some(2u32) {
            SelectedOptimizer::Analytical
        } else {
            SelectedOptimizer::BruteForce
        }
    }

    /// Picks the solver by the problem's shape.
    pub fn automatic(problem: &Problem) -> (r: SelectedOptimizer)
        ensures
            r == Self::spec_automatic(problem),
    {
        let two: bool = match problem.stage_count {
            Some(count) => count == 2,
            None => false,
        };
        if problem.is_single_engine() && two {
            SelectedOptimizer::Analytical
        } else {
            SelectedOptimizer::BruteForce
        }
    }

    /// The solver's name, as solutions carry it.
    pub fn name(&self) -> (r: &'static str)
        ensures
            r@ == (match *self {
                SelectedOptimizer::Analytical => "Analytical"@,
                SelectedOptimizer::BruteForce => "BruteForce"@,
            }),
    {
        match self {
            SelectedOptimizer::Analytical => "Analytical",
            SelectedOptimizer::BruteForce => "BruteForce",
        }
    }
}

} // verus!

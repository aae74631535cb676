//! The closed-form solver for two stages of one engine type.
//!
//! The solver splits the target, raised by 2 %, evenly between the stages
//! and sizes the upper stage first. Sizing a stage repeats two steps until
//! the engine count stands still: solve the propellant mass for the current
//! count, then find the least count that lifts the result. The caller does
//! the arithmetic of each trial; what follows from the numbers is decided
//! here.

use vstd::prelude::*;

use crate::stage::{Performance, Rocket};
use crate::units::{Mass, Ratio, Scalar, Velocity};

use super::error::{Infeasibility, OptimizeError, UnsupportedShape};
use super::problem::{Constraints, Problem};
use super::select::SelectedOptimizer;
use super::solution::Solution;

verus! {

/// Bits of `-1.0`: a solution may miss the target by up to 1 m/s.
pub const TOLERANCE_BITS: u64 = 0xBFF0_0000_0000_0000;

/// The closed-form solver.
#[derive(Debug, Clone, Copy, Default)]
pub struct AnalyticalOptimizer;

/// One of the two stages.
#[derive(Debug, Clone, Copy, PartialEq, Eq, Structural)]
pub enum StagePosition {
    /// The second stage, sized first: it sets what the first has to carry.
    Upper,
    /// The first stage, which lifts off.
    Lower,
}

/// The closed-form solution of one stage's propellant mass, as computed for
/// a required mass ratio `R`, a structural ratio `e` and a fixed mass `m`:
/// `propellant = m (R - 1) / denominator` with `denominator = 1 + e (1 - R)`.
#[derive(Debug, Clone, Copy, PartialEq, Eq, Structural)]
pub struct PropellantSolve {
    pub required_ratio: Ratio,
    pub denominator: Scalar,
    pub propellant: Mass,
}

/// One trial of a stage: the propellant solved for the current engine
/// count, and the thrust-to-weight ratio that the stage with that propellant
/// has with 1, 2, ... engines (entry `k` for `k + 1` engines).
#[derive(Debug, Clone)]
pub struct StageTrial {
    pub solve: PropellantSolve,
    pub twr_by_count: Vec<Ratio>,
}

/// A stage whose engine count stood still.
#[derive(Debug, Clone, Copy, PartialEq, Eq, Structural)]
pub struct SizedStage {
    pub engine_count: u32,
    pub propellant: Mass,
}

/// Where the solver stands.
#[derive(Debug, Clone, Copy, PartialEq, Eq, Structural)]
pub enum AnalyticalState {
    /// The caller is to try `position` with `engine_count` engines. `upper`
    /// holds the upper stage once it is sized.
    Sizing { position: StagePosition, engine_count: u32, upper: Option<SizedStage> },
    /// Both stages are sized: the caller is to assemble and evaluate the
    /// rocket.
    Assembling { upper: SizedStage, lower: SizedStage },
}

impl PropellantSolve {
    /// What the solve yields: the propellant mass, or why there is none.
    pub open spec fn outcome(self, structural_ratio: Ratio) -> Result<Mass, OptimizeError> {
        if self.required_ratio.value.spec_lt(Scalar::spec_one()) {
            Err(OptimizeError::Infeasible { reason: Infeasibility::MassRatioBelowOne })
        } else if self.denominator.spec_le(Scalar::spec_zero()) {
            Err(
                OptimizeError::Infeasible {
                    reason: Infeasibility::StructuralRatioTooHigh {
                        structural_ratio,
                        required_ratio: self.required_ratio,
                    },
                },
            )
        } else if self.propellant.value.spec_le(Scalar::spec_zero()) {
            Err(OptimizeError::Infeasible { reason: Infeasibility::NonPositivePropellant })
        } else {
            Ok(self.propellant)
        }
    }
}

/// Whether `count` engines lift the stage: the ratio at that count is at
/// least `min_twr`.
pub open spec fn lifts(twr_by_count: Seq<Ratio>, count: int, min_twr: Ratio) -> bool {
    1 <= count <= twr_by_count.len() && twr_by_count[count - 1].value.spec_ge(min_twr.value)
}

/// The first index at or after `from` whose ratio is at least `min_twr`,
/// or the length where there is none.
pub open spec fn first_lifting(twr_by_count: Seq<Ratio>, min_twr: Ratio, from: int) -> int
    decreases twr_by_count.len() - from,
{
    if from >= twr_by_count.len() {
        twr_by_count.len() as int
    } else if twr_by_count[from].value.spec_ge(min_twr.value) {
        from
    } else {
        first_lifting(twr_by_count, min_twr, from + 1)
    }
}

/// The least engine count that lifts the stage, or why there is none.
pub open spec fn needed_engines(twr_by_count: Seq<Ratio>, min_twr: Ratio, max_engines: u32) -> Result<
    u32,
    OptimizeError,
> {
    let first = first_lifting(twr_by_count, min_twr, 0);
    if first < twr_by_count.len() {
        Ok((first + 1) as u32)
    } else {
        Err(
            OptimizeError::Infeasible {
                reason: Infeasibility::InsufficientThrust { min_twr, max_engines },
            },
        )
    }
}

/// From `from` on, no index before `first_lifting` lifts the stage, and
/// `first_lifting` does unless it is the length.
pub proof fn lemma_first_lifting(twr_by_count: Seq<Ratio>, min_twr: Ratio, from: int)
    requires
        0 <= from <= twr_by_count.len(),
    ensures
        from <= first_lifting(twr_by_count, min_twr, from) <= twr_by_count.len(),
        forall|k: int|
            from <= k < first_lifting(twr_by_count, min_twr, from) ==> !twr_by_count[k].value.spec_ge(
                min_twr.value,
            ),
        first_lifting(twr_by_count, min_twr, from) < twr_by_count.len() ==> twr_by_count[first_lifting(
            twr_by_count,
            min_twr,
            from,
        )].value.spec_ge(min_twr.value),
    decreases twr_by_count.len() - from,
{
    if from < twr_by_count.len() && !twr_by_count[from].value.spec_ge(min_twr.value) {
        lemma_first_lifting(twr_by_count, min_twr, from + 1);
    }
}

/// `needed_engines` is the least count that lifts the stage, and an error
/// only where no count from 1 to the number of entries does.
pub proof fn lemma_needed_engines_least(twr_by_count: Seq<Ratio>, min_twr: Ratio, max_engines: u32)
    requires
        twr_by_count.len() == max_engines,
    ensures
        match needed_engines(twr_by_count, min_twr, max_engines) {
            Ok(count) => {
                &&& lifts(twr_by_count, count as int, min_twr)
                &&& forall|c: int| 1 <= c < count ==> !lifts(twr_by_count, c, min_twr)
            },
            Err(_) => forall|c: int| 1 <= c <= max_engines ==> !lifts(twr_by_count, c, min_twr),
        },
{
    lemma_first_lifting(twr_by_count, min_twr, 0);
    let first = first_lifting(twr_by_count, min_twr, 0);
    assert forall|c: int| 1 <= c < first + 1 implies !lifts(twr_by_count, c, min_twr) by {
        assert(!twr_by_count[c - 1].value.spec_ge(min_twr.value));
    }
}

impl AnalyticalOptimizer {
    /// Whether the solver takes the problem: the problem's own validation
    /// first, then one engine type, then a stage count fixed at 2.
    pub open spec fn applicability(problem: &Problem) -> Result<(), OptimizeError> {
        match problem.validation() {
            Err(e) => Err(OptimizeError::InvalidProblem(e)),
            Ok(_) => if !problem.single() {
                Err(
                    OptimizeError::Unsupported {
                        reason: UnsupportedShape::EngineTypes {
                            offered: problem.available_engines@.len() as usize,
                        },
                    },
                )
            } else if problem.stage_count != Some(2u32) {
                Err(
                    OptimizeError::Unsupported {
                        reason: UnsupportedShape::StageCount { requested: problem.stage_count },
                    },
                )
            } else {
                Ok(())
            },
        }
    }

    /// The ratio that a stage at `position` has to reach.
    pub open spec fn required_twr(position: StagePosition, constraints: Constraints) -> Ratio {
        match position {
            StagePosition::Upper => constraints.min_stage_twr,
            StagePosition::Lower => constraints.min_liftoff_twr,
        }
    }

    /// The state that follows a trial whose propellant is `propellant` and
    /// whose least lifting engine count is `needed`.
    pub open spec fn after_trial(
        position: StagePosition,
        engine_count: u32,
        upper: Option<SizedStage>,
        propellant: Mass,
        needed: u32,
    ) -> AnalyticalState {
        if needed != engine_count {
            AnalyticalState::Sizing { position, engine_count: needed, upper }
        } else {
            let sized = SizedStage { engine_count, propellant };
            match position {
                StagePosition::Upper => AnalyticalState::Sizing {
                    position: StagePosition::Lower,
                    engine_count: 1,
                    upper: Some(sized),
                },
                StagePosition::Lower => AnalyticalState::Assembling {
                    upper: upper->0,
                    lower: sized,
                },
            }
        }
    }

    /// What follows a trial: the first failure of the propellant solve or
    /// of the engine count, or the next state.
    pub open spec fn spec_advance(
        position: StagePosition,
        engine_count: u32,
        upper: Option<SizedStage>,
        trial: &StageTrial,
        constraints: Constraints,
    ) -> Result<AnalyticalState, OptimizeError> {
        match trial.solve.outcome(constraints.structural_ratio) {
            Err(e) => Err(e),
            Ok(propellant) => match needed_engines(
                trial.twr_by_count@,
                Self::required_twr(position, constraints),
                constraints.max_engines_per_stage,
            ) {
                Err(e) => Err(e),
                Ok(needed) => Ok(
                    Self::after_trial(position, engine_count, upper, propellant, needed),
                ),
            },
        }
    }

    /// Tests whether the solver takes the problem.
    ///
    /// A malformed problem is `InvalidProblem`. A well-formed one is
    /// `Unsupported` where it offers another number of engine types than
    /// one, or does not fix the stage count at 2.
    pub fn supports(problem: &Problem) -> (r: Result<(), OptimizeError>)
        ensures
            r == Self::applicability(problem),
    {
        match problem.is_valid() {
            Err(e) => {
                return Err(OptimizeError::InvalidProblem(e));
            },
            Ok(_) => {},
        }
        if !problem.is_single_engine() {
            return Err(
                OptimizeError::Unsupported {
                    reason: UnsupportedShape::EngineTypes {
                        offered: problem.available_engines.len(),
                    },
                },
            );
        }
        let two: bool = match problem.stage_count {
            Some(count) => count == 2,
            None => false,
        };
        if !two {
            return Err(
                OptimizeError::Unsupported {
                    reason: UnsupportedShape::StageCount { requested: problem.stage_count },
                },
            );
        }
        Ok(())
    }

    /// Opens the search: the upper stage is tried first, with one engine.
    pub fn begin(problem: &Problem) -> (r: Result<AnalyticalState, OptimizeError>)
        ensures
            match Self::applicability(problem) {
                Err(e) => r == Err::<AnalyticalState, OptimizeError>(e),
                Ok(_) => r == Ok::<AnalyticalState, OptimizeError>(
                    AnalyticalState::Sizing {
                        position: StagePosition::Upper,
                        engine_count: 1,
                        upper: None,
                    },
                ),
            },
    {
        match Self::supports(problem) {
            Err(e) => Err(e),
            Ok(_) => Ok(
                AnalyticalState::Sizing {
                    position: StagePosition::Upper,
                    engine_count: 1,
                    upper: None,
                },
            ),
        }
    }

    /// Judges a propellant solve: a required mass ratio below 1, a
    /// denominator that is not positive and a propellant mass that is not
    /// positive each make the stage infeasible, in that order.
    pub fn calculate_stage_propellant(solve: PropellantSolve, structural_ratio: Ratio) -> (r:
        Result<Mass, OptimizeError>)
        ensures
            r == solve.outcome(structural_ratio),
    {
        if solve.required_ratio.value.lt(Scalar::one()) {
            return Err(OptimizeError::Infeasible { reason: Infeasibility::MassRatioBelowOne });
        }
        if solve.denominator.le(Scalar::zero()) {
            return Err(
                OptimizeError::Infeasible {
                    reason: Infeasibility::StructuralRatioTooHigh {
                        structural_ratio,
                        required_ratio: solve.required_ratio,
                    },
                },
            );
        }
        if solve.propellant.value.le(Scalar::zero()) {
            return Err(OptimizeError::Infeasible { reason: Infeasibility::NonPositivePropellant });
        }
        Ok(solve.propellant)
    }

    /// Finds the least number of engines, from 1 to `max_engines`, whose
    /// thrust-to-weight ratio is at least `min_twr`.
    pub fn determine_engine_count(twr_by_count: &Vec<Ratio>, min_twr: Ratio, max_engines: u32) -> (r:
        Result<u32, OptimizeError>)
        requires
            twr_by_count@.len() == max_engines,
        ensures
            r == needed_engines(twr_by_count@, min_twr, max_engines),
    {
        let mut count: u32 = 0;
        while count < max_engines
            invariant
                count <= max_engines,
                twr_by_count@.len() == max_engines,
                first_lifting(twr_by_count@, min_twr, 0) == first_lifting(
                    twr_by_count@,
                    min_twr,
                    count as int,
                ),
            decreases max_engines - count,
        {
            let twr: Ratio = twr_by_count[count as usize];
            if twr.value.ge(min_twr.value) {
                return Ok(count + 1);
            }
            count = count + 1;
        }
        Err(
            OptimizeError::Infeasible {
                reason: Infeasibility::InsufficientThrust { min_twr, max_engines },
            },
        )
    }

    /// Takes the trial of the stage at `position` with `engine_count`
    /// engines, and says what comes next.
    ///
    /// The trial fails the search where its propellant solve is infeasible
    /// or no engine count lifts the stage. Where the least lifting count is
    /// the count that was tried, the stage is sized: the lower stage comes
    /// next, starting from one engine, or, after the lower stage, the
    /// assembly. Else the same stage is tried again with the least lifting
    /// count.
    pub fn advance(
        position: StagePosition,
        engine_count: u32,
        upper: Option<SizedStage>,
        trial: &StageTrial,
        constraints: Constraints,
    ) -> (r: Result<AnalyticalState, OptimizeError>)
        requires
            trial.twr_by_count@.len() == constraints.max_engines_per_stage,
            position == StagePosition::Lower ==> upper.is_some(),
        ensures
            r == Self::spec_advance(position, engine_count, upper, trial, constraints),
    {
        let propellant: Mass = match Self::calculate_stage_propellant(
            trial.solve,
            constraints.structural_ratio,
        ) {
            Err(e) => {
                return Err(e);
            },
            Ok(p) => p,
        };
        let min_twr: Ratio = match position {
            StagePosition::Upper => constraints.min_stage_twr,
            StagePosition::Lower => constraints.min_liftoff_twr,
        };
        let needed: u32 = match Self::determine_engine_count(
            &trial.twr_by_count,
            min_twr,
            constraints.max_engines_per_stage,
        ) {
            Err(e) => {
                return Err(e);
            },
            Ok(n) => n,
        };
        if needed != engine_count {
            return Ok(AnalyticalState::Sizing { position, engine_count: needed, upper });
        }
        let sized = SizedStage { engine_count, propellant };
        match position {
            StagePosition::Upper => Ok(
                AnalyticalState::Sizing {
                    position: StagePosition::Lower,
                    engine_count: 1,
                    upper: Some(sized),
                },
            ),
            StagePosition::Lower => match upper {
                Some(u) => Ok(AnalyticalState::Assembling { upper: u, lower: sized }),
                None => Ok(AnalyticalState::Assembling { upper: sized, lower: sized }),
            },
        }
    }

    /// What becomes of the assembled rocket: the failure of the
    /// thrust-to-weight rules, else a margin below the tolerance, else the
    /// solution.
    pub open spec fn judgement(
        rocket: &Rocket,
        performance: &Performance,
        margin: Velocity,
        constraints: Constraints,
        runtime_ms: u64,
        r: Result<Solution, OptimizeError>,
    ) -> bool {
        match performance.twr_validation(
            rocket.stages@.len() as int,
            constraints.min_stage_twr,
            true,
        ) {
            Err(e) => r matches Err(raised) && raised == OptimizeError::Infeasible {
                reason: Infeasibility::Twr(e),
            },
            Ok(_) => if margin.value.spec_lt(Scalar { bits: TOLERANCE_BITS }) {
                r matches Err(raised) && raised == OptimizeError::Infeasible {
                    reason: Infeasibility::BelowTarget { margin },
                }
            } else {
                &&& r matches Ok(solution)
                &&& solution.rocket == *rocket
                &&& solution.rocket.wf()
                &&& solution.margin == margin
                &&& solution.iterations == 1
                &&& solution.runtime_ms == runtime_ms
                &&& solution.optimizer_name@ == "Analytical"@
            },
        }
    }

    /// Accepts or rejects the assembled rocket: it has to pass the
    /// thrust-to-weight rules with the stage minimum and a liftoff, and its
    /// margin must not be below -1 m/s.
    pub fn finish(
        rocket: Rocket,
        performance: &Performance,
        margin: Velocity,
        constraints: Constraints,
        runtime_ms: u64,
    ) -> (r: Result<Solution, OptimizeError>)
        requires
            rocket.wf(),
            performance.stage_twr@.len() == rocket.stages@.len(),
        ensures
            Self::judgement(&rocket, performance, margin, constraints, runtime_ms, r),
    {
        match rocket.validate_twr(performance, constraints.min_stage_twr, true) {
            Err(e) => {
                return Err(OptimizeError::Infeasible { reason: Infeasibility::Twr(e) });
            },
            Ok(_) => {},
        }
        if margin.value.lt(Scalar::from_bits(TOLERANCE_BITS)) {
            return Err(
                OptimizeError::Infeasible { reason: Infeasibility::BelowTarget { margin } },
            );
        }
        Ok(Solution::with_metadata(rocket, margin, 1, runtime_ms, "Analytical"))
    }
}

/// A well-formed problem is refused as unsupported exactly where it offers
/// another number of engine types than one, or does not fix the stage count
/// at 2; every other well-formed problem is taken.
pub proof fn lemma_unsupported_shapes(problem: &Problem)
    requires
        problem.valid(),
    ensures
        (AnalyticalOptimizer::applicability(problem) matches Err(
            OptimizeError::Unsupported { .. },
        )) <==> (problem.available_engines@.len() != 1 || problem.stage_count != Some(2u32)),
        AnalyticalOptimizer::applicability(problem) is Ok <==> (problem.available_engines@.len()
            == 1 && problem.stage_count == Some(2u32)),
        AnalyticalOptimizer::applicability(problem) is Ok <==> SelectedOptimizer::spec_automatic(
            problem,
        ) == SelectedOptimizer::Analytical,
{
}

} // verus!

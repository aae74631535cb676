//! The optimization request and its validation.

use vstd::prelude::*;

use crate::engine::Engine;
use crate::units::{Mass, Ratio, Scalar, Velocity};

verus! {

/// Bits of `1.2`, the default minimum thrust-to-weight ratio at liftoff.
pub const DEFAULT_MIN_LIFTOFF_TWR_BITS: u64 = 0x3FF3_3333_3333_3333;

/// Bits of `0.5`, the default minimum thrust-to-weight ratio of an upper
/// stage.
pub const DEFAULT_MIN_STAGE_TWR_BITS: u64 = 0x3FE0_0000_0000_0000;

/// Bits of `0.08`, the default structural ratio.
pub const DEFAULT_STRUCTURAL_RATIO_BITS: u64 = 0x3FB4_7AE1_47AE_147B;

/// The default limit on stages.
pub const DEFAULT_MAX_STAGES: u32 = 3;

/// The default limit on engines per stage.
pub const DEFAULT_MAX_ENGINES: u32 = 9;

/// What a rocket has to respect to count as feasible.
#[derive(Debug, Clone, Copy, PartialEq, Eq, Structural)]
pub struct Constraints {
    /// Least thrust-to-weight ratio at liftoff; at least 1.
    pub min_liftoff_twr: Ratio,
    /// Least thrust-to-weight ratio of a stage above the first; positive.
    pub min_stage_twr: Ratio,
    /// Most stages; at least 1.
    pub max_stages: u32,
    /// Structural mass over propellant mass; strictly between 0 and 1.
    pub structural_ratio: Ratio,
    /// Most engines on one stage.
    pub max_engines_per_stage: u32,
}

/// A constraint out of its range.
#[derive(Debug, Clone, Copy, PartialEq, Eq, Structural)]
pub enum ConstraintError {
    /// The liftoff ratio is below 1.
    InvalidLiftoffTwr(Ratio),
    /// The stage ratio is zero or negative.
    InvalidStageTwr(Ratio),
    /// No stage is allowed.
    ZeroStages,
    /// The structural ratio is at most 0 or at least 1.
    InvalidStructuralRatio(Ratio),
}

/// A malformed problem.
#[derive(Debug, Clone, Copy, PartialEq, Eq, Structural)]
pub enum ProblemError {
    /// The payload is zero or negative.
    InvalidPayload(Mass),
    /// The target is zero or negative.
    InvalidDeltaV(Velocity),
    /// No engine is offered.
    NoEngines,
    /// The fixed stage count is zero or above the limit.
    InvalidStageCount { requested: u32, max: u32 },
    /// A constraint is out of range.
    Constraint(ConstraintError),
}

/// An optimization request: deliver `payload` to `target_delta_v` with
/// stages built from `available_engines`, within `constraints`.
#[derive(Debug, Clone)]
pub struct Problem {
    pub payload: Mass,
    pub target_delta_v: Velocity,
    pub available_engines: Vec<Engine>,
    pub constraints: Constraints,
    /// The number of stages, where the caller fixes it.
    pub stage_count: Option<u32>,
}

impl Constraints {
    /// What validation finds: the first rule broken, in the order liftoff
    /// ratio, stage ratio, stage limit, structural ratio.
    pub open spec fn validation(self) -> Result<(), ConstraintError> {
        if self.min_liftoff_twr.value.spec_lt(Scalar::spec_one()) {
            Err(ConstraintError::InvalidLiftoffTwr(self.min_liftoff_twr))
        } else if self.min_stage_twr.value.spec_le(Scalar::spec_zero()) {
            Err(ConstraintError::InvalidStageTwr(self.min_stage_twr))
        } else if self.max_stages == 0 {
            Err(ConstraintError::ZeroStages)
        } else if self.structural_ratio.value.spec_le(Scalar::spec_zero())
            || self.structural_ratio.value.spec_ge(Scalar::spec_one()) {
            Err(ConstraintError::InvalidStructuralRatio(self.structural_ratio))
        } else {
            Ok(())
        }
    }

    /// The default constraints.
    pub open spec fn spec_default() -> Constraints {
        Constraints {
            min_liftoff_twr: Ratio { value: Scalar { bits: DEFAULT_MIN_LIFTOFF_TWR_BITS } },
            min_stage_twr: Ratio { value: Scalar { bits: DEFAULT_MIN_STAGE_TWR_BITS } },
            max_stages: DEFAULT_MAX_STAGES,
            structural_ratio: Ratio { value: Scalar { bits: DEFAULT_STRUCTURAL_RATIO_BITS } },
            max_engines_per_stage: DEFAULT_MAX_ENGINES,
        }
    }

    /// Constraints with the given ratios and stage limit, and at most 9
    /// engines per stage.
    pub fn new(
        min_liftoff_twr: Ratio,
        min_stage_twr: Ratio,
        max_stages: u32,
        structural_ratio: Ratio,
    ) -> (r: Constraints)
        ensures
            r == (Constraints {
                min_liftoff_twr,
                min_stage_twr,
                max_stages,
                structural_ratio,
                max_engines_per_stage: DEFAULT_MAX_ENGINES,
            }),
    {
        Constraints {
            min_liftoff_twr,
            min_stage_twr,
            max_stages,
            structural_ratio,
            max_engines_per_stage: DEFAULT_MAX_ENGINES,
        }
    }

    /// The same constraints with another limit on engines per stage.
    pub fn with_max_engines(self, max: u32) -> (r: Constraints)
        ensures
            r == (Constraints { max_engines_per_stage: max, ..self }),
    {
        Constraints { max_engines_per_stage: max, ..self }
    }

    /// Tests each constraint against its range and reports the first that
    /// is out of it.
    pub fn validate(&self) -> (r: Result<(), ConstraintError>)
        ensures
            r == self.validation(),
    {
        if self.min_liftoff_twr.value.lt(Scalar::one()) {
            return Err(ConstraintError::InvalidLiftoffTwr(self.min_liftoff_twr));
        }
        if self.min_stage_twr.value.le(Scalar::zero()) {
            return Err(ConstraintError::InvalidStageTwr(self.min_stage_twr));
        }
        if self.max_stages == 0 {
            return Err(ConstraintError::ZeroStages);
        }
        if self.structural_ratio.value.le(Scalar::zero()) || self.structural_ratio.value.ge(
            Scalar::one(),
        ) {
            return Err(ConstraintError::InvalidStructuralRatio(self.structural_ratio));
        }
        Ok(())
    }
}

impl Default for Constraints {
    /// Liftoff ratio 1.2, stage ratio 0.5, at most 3 stages, structural
    /// ratio 0.08, at most 9 engines per stage.
    fn default() -> (r: Constraints)
        ensures
            r == Constraints::spec_default(),
    {
        Constraints {
            min_liftoff_twr: Ratio::new(Scalar::from_bits(DEFAULT_MIN_LIFTOFF_TWR_BITS)),
            min_stage_twr: Ratio::new(Scalar::from_bits(DEFAULT_MIN_STAGE_TWR_BITS)),
            max_stages: DEFAULT_MAX_STAGES,
            structural_ratio: Ratio::new(Scalar::from_bits(DEFAULT_STRUCTURAL_RATIO_BITS)),
            max_engines_per_stage: DEFAULT_MAX_ENGINES,
        }
    }
}

/// The default constraints are valid.
pub proof fn lemma_default_constraints_valid()
    ensures
        Constraints::spec_default().validation() == Ok::<(), ConstraintError>(()),
{
}

impl Problem {
    /// What validation finds: the first rule broken, in the order payload,
    /// target, engines, stage count, constraints.
    pub open spec fn validation(&self) -> Result<(), ProblemError> {
        if self.payload.value.spec_le(Scalar::spec_zero()) {
            Err(ProblemError::InvalidPayload(self.payload))
        } else if self.target_delta_v.value.spec_le(Scalar::spec_zero()) {
            Err(ProblemError::InvalidDeltaV(self.target_delta_v))
        } else if self.available_engines@.len() == 0 {
            Err(ProblemError::NoEngines)
        } else if self.stage_count matches Some(count) && (count == 0 || count
            > self.constraints.max_stages) {
            Err(
                ProblemError::InvalidStageCount {
                    requested: self.stage_count->0,
                    max: self.constraints.max_stages,
                },
            )
        } else {
            match self.constraints.validation() {
                Err(e) => Err(ProblemError::Constraint(e)),
                Ok(_) => Ok(()),
            }
        }
    }

    /// Whether the problem is well formed.
    pub open spec fn valid(&self) -> bool {
        self.validation() is Ok
    }

    /// Whether exactly one engine type is offered.
    pub open spec fn single(&self) -> bool {
        self.available_engines@.len() == 1
    }

    /// A problem without a fixed stage count.
    pub fn new(
        payload: Mass,
        target_delta_v: Velocity,
        available_engines: Vec<Engine>,
        constraints: Constraints,
    ) -> (r: Problem)
        ensures
            r.payload == payload,
            r.target_delta_v == target_delta_v,
            r.available_engines == available_engines,
            r.constraints == constraints,
            r.stage_count == None::<u32>,
    {
        Problem { payload, target_delta_v, available_engines, constraints, stage_count: None }
    }

    /// The same problem with the number of stages fixed at `count`.
    pub fn with_stage_count(self, count: u32) -> (r: Problem)
        ensures
            r.payload == self.payload,
            r.target_delta_v == self.target_delta_v,
            r.available_engines == self.available_engines,
            r.constraints == self.constraints,
            r.stage_count == Some(count),
    {
        Problem {
            payload: self.payload,
            target_delta_v: self.target_delta_v,
            available_engines: self.available_engines,
            constraints: self.constraints,
            stage_count: Some(count),
        }
    }

    /// Tests the problem before any solver runs, and reports the first rule
    /// it breaks: a payload or a target that is not positive, an empty
    /// engine list, a fixed stage count outside `1..=max_stages`, or a
    /// constraint out of range.
    pub fn is_valid(&self) -> (r: Result<(), ProblemError>)
        ensures
            r == self.validation(),
    {
        if self.payload.value.le(Scalar::zero()) {
            return Err(ProblemError::InvalidPayload(self.payload));
        }
        if self.target_delta_v.value.le(Scalar::zero()) {
            return Err(ProblemError::InvalidDeltaV(self.target_delta_v));
        }
        if self.available_engines.len() == 0 {
            return Err(ProblemError::NoEngines);
        }
        match self.stage_count {
            Some(count) => {
                if count == 0 || count > self.constraints.max_stages {
                    return Err(
                        ProblemError::InvalidStageCount {
                            requested: count,
                            max: self.constraints.max_stages,
                        },
                    );
                }
            },
            None => {},
        }
        match self.constraints.validate() {
            Err(e) => Err(ProblemError::Constraint(e)),
            Ok(_) => Ok(()),
        }
    }

    /// Whether exactly one engine type is offered.
    pub fn is_single_engine(&self) -> (r: bool)
        ensures
            r == self.single(),
    {
        self.available_engines.len() == 1
    }

    /// The engine, where exactly one type is offered.
    pub fn single_engine(&self) -> (r: Option<&Engine>)
        ensures
            self.single() ==> r == Some(&self.available_engines@[0]),
            !self.single() ==> r.is_none(),
    {
        if self.available_engines.len() == 1 {
            Some(&self.available_engines[0])
        } else {
            None
        }
    }
}

} // verus!

//! A stack of stages with its payload, and the thrust-to-weight rules.

use vstd::prelude::*;

use crate::units::{Mass, Ratio, Scalar, Velocity};

use super::stage::Stage;

verus! {

/// A rocket: stages from the bottom up (index 0 fires first) and a payload.
/// A rocket has at least one stage.
#[derive(Debug, Clone)]
pub struct Rocket {
    pub stages: Vec<Stage>,
    pub payload: Mass,
}

/// What a rocket achieves: the figures its caller computed from the masses
/// and engines, one entry per stage where a figure belongs to a stage.
#[derive(Debug, Clone)]
pub struct Performance {
    /// Velocity change of each stage while it carries all that is above it.
    pub stage_delta_v: Vec<Velocity>,
    /// Vacuum thrust-to-weight ratio of each stage at ignition, with all
    /// that is above it.
    pub stage_twr: Vec<Ratio>,
    /// Sea-level thrust of stage 0 against the weight of the whole rocket.
    pub liftoff_twr: Ratio,
    /// Sum of the stages' velocity changes.
    pub total_delta_v: Velocity,
    /// Mass of all stages, fuelled, and the payload.
    pub total_mass: Mass,
}

/// A thrust-to-weight ratio that is too low.
#[derive(Debug, Clone, Copy, PartialEq, Eq, Structural)]
pub enum TwrError {
    /// The rocket cannot leave the pad.
    InsufficientLiftoff { twr: Ratio, required: Ratio },
    /// Stage `stage` is too weak for what it carries.
    InsufficientStageTwr { stage: usize, twr: Ratio, required: Ratio },
}

impl Performance {
    /// The ratio that the rules test at `stage`: at stage 0 of a rocket that
    /// has to lift off, the sea-level ratio; else the stage's vacuum ratio.
    pub open spec fn tested_twr(&self, stage: int, require_liftoff: bool) -> Ratio {
        if stage == 0 && require_liftoff {
            self.liftoff_twr
        } else {
            self.stage_twr@[stage]
        }
    }

    /// Whether the ratio tested at `stage` is below `min_twr`.
    pub open spec fn too_weak(&self, stage: int, min_twr: Ratio, require_liftoff: bool) -> bool {
        self.tested_twr(stage, require_liftoff).value.spec_lt(min_twr.value)
    }

    /// Whether the rocket has to lift off and cannot.
    pub open spec fn grounded(&self, require_liftoff: bool) -> bool {
        require_liftoff && self.liftoff_twr.value.spec_lt(Scalar::spec_one())
    }

    /// The lowest stage from `from` on, below `count`, whose tested ratio is
    /// below `min_twr`, or `count` where there is none.
    pub open spec fn first_weak(
        &self,
        min_twr: Ratio,
        require_liftoff: bool,
        from: int,
        count: int,
    ) -> int
        decreases count - from,
    {
        if from >= count {
            count
        } else if self.too_weak(from, min_twr, require_liftoff) {
            from
        } else {
            self.first_weak(min_twr, require_liftoff, from + 1, count)
        }
    }

    /// What the rules find of a rocket of `count` stages: that it cannot
    /// lift off, else its lowest stage that is too weak, else nothing.
    pub open spec fn twr_validation(&self, count: int, min_twr: Ratio, require_liftoff: bool) -> Result<
        (),
        TwrError,
    > {
        if self.grounded(require_liftoff) {
            Err(
                TwrError::InsufficientLiftoff {
                    twr: self.liftoff_twr,
                    required: Ratio { value: Scalar::spec_one() },
                },
            )
        } else {
            let weak = self.first_weak(min_twr, require_liftoff, 0, count);
            if weak < count {
                Err(
                    TwrError::InsufficientStageTwr {
                        stage: weak as usize,
                        twr: self.tested_twr(weak, require_liftoff),
                        required: min_twr,
                    },
                )
            } else {
                Ok(())
            }
        }
    }

    /// A copy of the figures.
    pub fn duplicate(&self) -> (r: Performance)
        ensures
            r.stage_delta_v@ == self.stage_delta_v@,
            r.stage_twr@ == self.stage_twr@,
            r.liftoff_twr == self.liftoff_twr,
            r.total_delta_v == self.total_delta_v,
            r.total_mass == self.total_mass,
    {
        Performance {
            stage_delta_v: self.stage_delta_v.clone(),
            stage_twr: self.stage_twr.clone(),
            liftoff_twr: self.liftoff_twr,
            total_delta_v: self.total_delta_v,
            total_mass: self.total_mass,
        }
    }
}

impl Rocket {
    /// Whether the rocket has a stage.
    pub open spec fn wf(&self) -> bool {
        self.stages@.len() > 0
    }

    /// Stacks `stages`, bottom first, under `payload`.
    pub fn new(stages: Vec<Stage>, payload: Mass) -> (r: Rocket)
        requires
            stages@.len() > 0,
        ensures
            r.stages == stages,
            r.payload == payload,
            r.wf(),
    {
        Rocket { stages, payload }
    }

    /// The stages, bottom first.
    pub fn stages(&self) -> (r: &Vec<Stage>)
        ensures
            *r == self.stages,
    {
        &self.stages
    }

    /// The payload.
    pub fn payload(&self) -> (r: Mass)
        ensures
            r == self.payload,
    {
        self.payload
    }

    /// The number of stages.
    pub fn stage_count(&self) -> (r: usize)
        ensures
            r == self.stages@.len(),
    {
        self.stages.len()
    }

    /// A copy of the rocket.
    pub fn duplicate(&self) -> (r: Rocket)
        ensures
            r.stages@ == self.stages@,
            r.payload == self.payload,
            r.wf() == self.wf(),
    {
        let mut stages: Vec<Stage> = Vec::new();
        let mut i: usize = 0;
        while i < self.stages.len()
            invariant
                i <= self.stages@.len(),
                stages@ == self.stages@.take(i as int),
            decreases self.stages@.len() - i,
        {
            stages.push(self.stages[i].duplicate());
            i = i + 1;
        }
        assert(self.stages@.take(self.stages@.len() as int) == self.stages@);
        Rocket { stages, payload: self.payload }
    }

    /// Tests the thrust-to-weight ratios in `performance` against the rules.
    ///
    /// A rocket that has to lift off fails with `InsufficientLiftoff` where
    /// its sea-level ratio is below 1. Else the lowest stage whose tested
    /// ratio is below `min_twr` fails the rocket with
    /// `InsufficientStageTwr`; stage 0 of a rocket that has to lift off is
    /// tested by its sea-level ratio, every other stage by its vacuum ratio.
    pub fn validate_twr(
        &self,
        performance: &Performance,
        min_twr: Ratio,
        require_liftoff: bool,
    ) -> (r: Result<(), TwrError>)
        requires
            self.wf(),
            performance.stage_twr@.len() == self.stages@.len(),
        ensures
            r == performance.twr_validation(self.stages@.len() as int, min_twr, require_liftoff),
    {
        if require_liftoff && performance.liftoff_twr.value.lt(Scalar::one()) {
            return Err(
                TwrError::InsufficientLiftoff {
                    twr: performance.liftoff_twr,
                    required: Ratio::new(Scalar::one()),
                },
            );
        }
        let mut i: usize = 0;
        while i < self.stages.len()
            invariant
                i <= self.stages@.len(),
                performance.stage_twr@.len() == self.stages@.len(),
                !performance.grounded(require_liftoff),
                performance.first_weak(min_twr, require_liftoff, 0, self.stages@.len() as int)
                    == performance.first_weak(
                    min_twr,
                    require_liftoff,
                    i as int,
                    self.stages@.len() as int,
                ),
            decreases self.stages@.len() - i,
        {
            let tested: Ratio = if i == 0 && require_liftoff {
                performance.liftoff_twr
            } else {
                performance.stage_twr[i]
            };
            if tested.value.lt(min_twr.value) {
                return Err(
                    TwrError::InsufficientStageTwr { stage: i, twr: tested, required: min_twr },
                );
            }
            i = i + 1;
        }
        Ok(())
    }
}

/// `first_weak` is the lowest stage from `from` on that is too weak: no
/// stage before it is, and it is unless it is `count`.
pub proof fn lemma_first_weak(
    performance: &Performance,
    min_twr: Ratio,
    require_liftoff: bool,
    from: int,
    count: int,
)
    requires
        0 <= from <= count,
    ensures
        from <= performance.first_weak(min_twr, require_liftoff, from, count) <= count,
        forall|i: int|
            from <= i < performance.first_weak(min_twr, require_liftoff, from, count)
                ==> !performance.too_weak(i, min_twr, require_liftoff),
        performance.first_weak(min_twr, require_liftoff, from, count) < count
            ==> performance.too_weak(
            performance.first_weak(min_twr, require_liftoff, from, count),
            min_twr,
            require_liftoff,
        ),
    decreases count - from,
{
    if from < count && !performance.too_weak(from, min_twr, require_liftoff) {
        lemma_first_weak(performance, min_twr, require_liftoff, from + 1, count);
    }
}

/// A rocket passes the rules exactly where it can lift off if it has to,
/// and none of its stages is too weak.
pub proof fn lemma_twr_validation(
    performance: &Performance,
    count: int,
    min_twr: Ratio,
    require_liftoff: bool,
)
    requires
        0 <= count,
    ensures
        performance.twr_validation(count, min_twr, require_liftoff) is Ok <==> (
        !performance.grounded(require_liftoff) && forall|i: int|
            0 <= i < count ==> !performance.too_weak(i, min_twr, require_liftoff)),
{
    lemma_first_weak(performance, min_twr, require_liftoff, 0, count);
}

} // verus!

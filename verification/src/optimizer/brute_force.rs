//! The grid search over stage count, engine choice, engine count and
//! propellant mass.
//!
//! The search runs in two phases. The coarse phase tries every stage count
//! in the allowed range over a wide propellant grid. The refinement tries a
//! finer grid around the coarse winner. The caller lays out the grids and
//! evaluates each configuration; which configurations there are, which of
//! them count, and which one wins is decided here.

use vstd::prelude::*;

use crate::engine::Engine;
use crate::stage::Performance;
use crate::units::order::{all_numbers, lemma_stable_order_permutes, order_by_key, permutes, stable_order};
use crate::units::{Mass, Ratio, Scalar, Velocity};

use super::configuration::{
    all_below,
    coarse_choices,
    configurations,
    engines_to_try,
    generate_recursive,
    leading,
    leading_engines,
    list_stage_choices,
    refined_choices,
    views,
    StageSpec,
};
use super::problem::{Constraints, Problem};

verus! {

/// Grid points per stage in the coarse phase, by default.
pub const DEFAULT_COARSE_STEPS: u32 = 15;

/// Grid points per stage in the refinement, by default.
pub const DEFAULT_FINE_STEPS: u32 = 10;

/// Bits of `10000.0`, the default least propellant mass in kilograms.
pub const DEFAULT_MIN_PROPELLANT_BITS: u64 = 0x40C3_8800_0000_0000;

/// Bits of `5000000.0`, the default greatest propellant mass in kilograms.
pub const DEFAULT_MAX_PROPELLANT_BITS: u64 = 0x4153_12D0_0000_0000;

/// The grid search and its settings.
#[derive(Debug, Clone, Copy, PartialEq, Eq, Structural)]
pub struct BruteForceOptimizer {
    /// Grid points per stage in the coarse phase.
    pub coarse_steps: u32,
    /// Grid points per stage in the refinement.
    pub fine_steps: u32,
    /// Least propellant mass of a stage, in kilograms.
    pub min_propellant_kg: Scalar,
    /// Greatest propellant mass of a stage in the coarse phase, in kilograms.
    pub max_propellant_kg: Scalar,
    /// Whether the caller is to report progress.
    pub show_progress: bool,
    /// Whether engines are ranked per stage: by thrust per engine mass at
    /// sea level for the first stage, by vacuum specific impulse above it.
    pub prefer_vacuum_upper: bool,
}

/// The best configuration of a batch: its place in the batch and the total
/// mass that won.
#[derive(Debug, Clone, Copy, PartialEq, Eq, Structural)]
pub struct Best {
    pub index: usize,
    pub total_mass: Mass,
}

/// The ranking that leaves `n` engines as they are listed.
pub open spec fn as_listed(n: nat) -> Seq<usize> {
    Seq::new(n, |i: int| i as usize)
}

/// The vacuum specific impulses of `engines`.
pub open spec fn vacuum_merit(engines: Seq<Engine>) -> Seq<Scalar> {
    Seq::new(engines.len(), |i: int| engines[i].isp_vac.value)
}

/// Whether a thrust-to-weight ratio meets a minimum.
pub open spec fn stage_lifts(twr: Ratio, min_twr: Ratio) -> bool {
    twr.value.spec_ge(min_twr.value)
}

/// Whether a configuration respects the thrust-to-weight rules: the
/// sea-level ratio of the first stage meets the liftoff minimum, and the
/// vacuum ratio of every other stage meets the stage minimum.
pub open spec fn feasible(performance: &Performance, constraints: Constraints) -> bool {
    &&& stage_lifts(performance.liftoff_twr, constraints.min_liftoff_twr)
    &&& forall|i: int|
        1 <= i < performance.stage_twr@.len() ==> stage_lifts(
            #[trigger] performance.stage_twr@[i],
            constraints.min_stage_twr,
        )
}

/// Whether a configuration counts: it is feasible and reaches the target.
pub open spec fn qualifies(performance: &Performance, constraints: Constraints, target: Velocity) -> bool {
    feasible(performance, constraints) && performance.total_delta_v.value.spec_ge(target.value)
}

/// Whether a total mass beats the best so far: there is none yet, or the
/// mass is strictly less.
pub open spec fn improves(total_mass: Mass, best: Option<Best>) -> bool {
    best is None || total_mass.value.spec_lt(best->0.total_mass.value)
}

/// The best after configuration `j` was looked at.
pub open spec fn consider(
    evaluations: Seq<Performance>,
    constraints: Constraints,
    target: Velocity,
    best: Option<Best>,
    j: int,
) -> Option<Best> {
    if qualifies(&evaluations[j], constraints, target) && improves(evaluations[j].total_mass, best) {
        Some(Best { index: j as usize, total_mass: evaluations[j].total_mass })
    } else {
        best
    }
}

/// The best of the configurations `lo..hi`, looked at in order.
pub open spec fn best_in(
    evaluations: Seq<Performance>,
    constraints: Constraints,
    target: Velocity,
    lo: int,
    hi: int,
) -> Option<Best>
    decreases hi - lo,
{
    if hi <= lo {
        None
    } else {
        consider(
            evaluations,
            constraints,
            target,
            best_in(evaluations, constraints, target, lo, hi - 1),
            hi - 1,
        )
    }
}

/// The better of two bests, the first winning a tie.
pub open spec fn spec_combine(a: Option<Best>, b: Option<Best>) -> Option<Best> {
    match b {
        None => a,
        Some(second) => if improves(second.total_mass, a) {
            b
        } else {
            a
        },
    }
}

/// Whether the total mass of every configuration that counts is a number.
pub open spec fn masses_are_numbers(
    evaluations: Seq<Performance>,
    constraints: Constraints,
    target: Velocity,
) -> bool {
    forall|j: int|
        0 <= j < evaluations.len() && qualifies(&#[trigger] evaluations[j], constraints, target)
            ==> !evaluations[j].total_mass.value.nan()
}

/// `count + by`, wrapping around at 2^64.
pub open spec fn wrapped(count: u64, by: nat) -> u64 {
    ((count + by) % 0x1_0000_0000_0000_0000) as u64
}

pub(crate) fn advance_counter(count: u64, by: usize) -> (r: u64)
    ensures
        r == wrapped(count, by as nat),
{
    let step: u64 = by as u64;
    let room: u64 = u64::MAX - count;
    if step <= room {
        count + step
    } else {
        step - room - 1
    }
}

impl Default for BruteForceOptimizer {
    /// 15 coarse and 10 fine grid points between 10 t and 5000 t, with
    /// progress reports and per-stage engine ranking.
    fn default() -> (r: BruteForceOptimizer)
        ensures
            r == (BruteForceOptimizer {
                coarse_steps: DEFAULT_COARSE_STEPS,
                fine_steps: DEFAULT_FINE_STEPS,
                min_propellant_kg: Scalar { bits: DEFAULT_MIN_PROPELLANT_BITS },
                max_propellant_kg: Scalar { bits: DEFAULT_MAX_PROPELLANT_BITS },
                show_progress: true,
                prefer_vacuum_upper: true,
            }),
    {
        BruteForceOptimizer {
            coarse_steps: DEFAULT_COARSE_STEPS,
            fine_steps: DEFAULT_FINE_STEPS,
            min_propellant_kg: Scalar::from_bits(DEFAULT_MIN_PROPELLANT_BITS),
            max_propellant_kg: Scalar::from_bits(DEFAULT_MAX_PROPELLANT_BITS),
            show_progress: true,
            prefer_vacuum_upper: true,
        }
    }
}

impl BruteForceOptimizer {
    /// A search with `propellant_steps` coarse grid points between the two
    /// masses, half as many plus one in the refinement, no progress
    /// reports, and per-stage engine ranking.
    pub fn new(propellant_steps: u32, min_propellant_kg: Scalar, max_propellant_kg: Scalar) -> (r:
        BruteForceOptimizer)
        ensures
            r == (BruteForceOptimizer {
                coarse_steps: propellant_steps,
                fine_steps: (propellant_steps / 2 + 1) as u32,
                min_propellant_kg,
                max_propellant_kg,
                show_progress: false,
                prefer_vacuum_upper: true,
            }),
    {
        BruteForceOptimizer {
            coarse_steps: propellant_steps,
            fine_steps: propellant_steps / 2 + 1,
            min_propellant_kg,
            max_propellant_kg,
            show_progress: false,
            prefer_vacuum_upper: true,
        }
    }

    /// The same search with progress reports switched on or off.
    pub fn with_progress(self, show: bool) -> (r: BruteForceOptimizer)
        ensures
            r == (BruteForceOptimizer { show_progress: show, ..self }),
    {
        BruteForceOptimizer { show_progress: show, ..self }
    }

    /// The same search with per-stage engine ranking switched on or off.
    pub fn with_vacuum_preference(self, prefer: bool) -> (r: BruteForceOptimizer)
        ensures
            r == (BruteForceOptimizer { prefer_vacuum_upper: prefer, ..self }),
    {
        BruteForceOptimizer { prefer_vacuum_upper: prefer, ..self }
    }

    /// Ranks the engines for the first stage and for the stages above it.
    ///
    /// With per-stage ranking the first list holds the engines by falling
    /// `sea_level_merit` (sea-level thrust per engine mass, one entry per
    /// engine), the second by falling vacuum specific impulse; engines of
    /// equal merit stay in their listed order. Without it both lists hold
    /// the engines as listed.
    pub fn sort_engines_by_preference(&self, engines: &Vec<Engine>, sea_level_merit: &Vec<Scalar>) -> (r:
        (Vec<usize>, Vec<usize>))
        requires
            sea_level_merit@.len() == engines@.len(),
            self.prefer_vacuum_upper ==> all_numbers(sea_level_merit@) && all_numbers(
                vacuum_merit(engines@),
            ),
        ensures
            self.prefer_vacuum_upper ==> r.0@ == stable_order(
                sea_level_merit@,
                engines@.len(),
                true,
            ) && r.1@ == stable_order(vacuum_merit(engines@), engines@.len(), true),
            !self.prefer_vacuum_upper ==> r.0@ == as_listed(engines@.len()) && r.1@ == as_listed(
                engines@.len(),
            ),
            permutes(r.0@, engines@.len()),
            permutes(r.1@, engines@.len()),
    {
        if !self.prefer_vacuum_upper {
            let mut first: Vec<usize> = Vec::new();
            let mut upper: Vec<usize> = Vec::new();
            let mut i: usize = 0;
            while i < engines.len()
                invariant
                    i <= engines@.len(),
                    first@ == as_listed(i as nat),
                    upper@ == as_listed(i as nat),
                decreases engines@.len() - i,
            {
                first.push(i);
                upper.push(i);
                i = i + 1;
            }
            return (first, upper);
        }
        let mut isp: Vec<Scalar> = Vec::new();
        let mut i: usize = 0;
        while i < engines.len()
            invariant
                i <= engines@.len(),
                isp@ == vacuum_merit(engines@).take(i as int),
            decreases engines@.len() - i,
        {
            isp.push(engines[i].isp_vac.value);
            i = i + 1;
        }
        proof {
            assert(isp@ == vacuum_merit(engines@));
            lemma_stable_order_permutes(sea_level_merit@, engines@.len(), true);
            lemma_stable_order_permutes(vacuum_merit(engines@), engines@.len(), true);
        }
        let first: Vec<usize> = order_by_key(sea_level_merit, true);
        let upper: Vec<usize> = order_by_key(&isp, true);
        (first, upper)
    }

    /// Lists the configurations of the coarse phase for `stage_count`
    /// stages: each stage picks one of the leading ranked engines, a number
    /// of engines from 1 to the problem's limit, and one of the
    /// `coarse_steps` grid points.
    pub fn generate_configurations(
        &self,
        problem: &Problem,
        stage_count: usize,
        first_stage_engines: &Vec<usize>,
        upper_stage_engines: &Vec<usize>,
    ) -> (r: Vec<Vec<StageSpec>>)
        ensures
            views(r@) == configurations(
                coarse_choices(
                    stage_count as nat,
                    first_stage_engines@,
                    upper_stage_engines@,
                    problem.constraints.max_engines_per_stage as nat,
                    self.coarse_steps as nat,
                ),
                0,
            ),
    {
        let max_engines: u32 = problem.constraints.max_engines_per_stage;
        let grid: usize = self.coarse_steps as usize;
        let first: Vec<usize> = leading_engines(first_stage_engines);
        let upper: Vec<usize> = leading_engines(upper_stage_engines);
        let mut choices: Vec<Vec<StageSpec>> = Vec::new();
        let mut s: usize = 0;
        while s < stage_count
            invariant
                s <= stage_count,
                first@ == leading(first_stage_engines@),
                upper@ == leading(upper_stage_engines@),
                grid == self.coarse_steps,
                max_engines == problem.constraints.max_engines_per_stage,
                views(choices@) == coarse_choices(
                    s as nat,
                    first_stage_engines@,
                    upper_stage_engines@,
                    max_engines as nat,
                    grid as nat,
                ),
            decreases stage_count - s,
        {
            let stage: Vec<StageSpec> = if s == 0 {
                list_stage_choices(&first, max_engines, grid)
            } else {
                list_stage_choices(&upper, max_engines, grid)
            };
            let ghost before = views(choices@);
            choices.push(stage);
            assert(views(choices@) == before.push(stage@));
            s = s + 1;
        }
        generate_recursive(&choices, 0)
    }

    /// Lists the configurations of the refinement around `winner`: each
    /// stage picks the winner's engine or one of the leading ranked engines
    /// with another name, a number of engines from 1 to the problem's
    /// limit, and one of the `fine_steps` points of the stage's own grid.
    pub fn generate_refined(
        &self,
        problem: &Problem,
        winner: &Vec<StageSpec>,
        first_stage_engines: &Vec<usize>,
        upper_stage_engines: &Vec<usize>,
    ) -> (r: Vec<Vec<StageSpec>>)
        requires
            all_below(first_stage_engines@, problem.available_engines@.len()),
            all_below(upper_stage_engines@, problem.available_engines@.len()),
            forall|s: int|
                0 <= s < winner@.len() ==> (#[trigger] winner@[s]).engine
                    < problem.available_engines@.len(),
        ensures
            views(r@) == configurations(
                refined_choices(
                    problem.available_engines@,
                    winner@,
                    first_stage_engines@,
                    upper_stage_engines@,
                    problem.constraints.max_engines_per_stage as nat,
                    self.fine_steps as nat,
                ),
                0,
            ),
    {
        let max_engines: u32 = problem.constraints.max_engines_per_stage;
        let grid: usize = self.fine_steps as usize;
        let mut choices: Vec<Vec<StageSpec>> = Vec::new();
        let mut s: usize = 0;
        while s < winner.len()
            invariant
                s <= winner@.len(),
                grid == self.fine_steps,
                max_engines == problem.constraints.max_engines_per_stage,
                all_below(first_stage_engines@, problem.available_engines@.len()),
                all_below(upper_stage_engines@, problem.available_engines@.len()),
                forall|k: int|
                    0 <= k < winner@.len() ==> (#[trigger] winner@[k]).engine
                        < problem.available_engines@.len(),
                views(choices@) == refined_choices(
                    problem.available_engines@,
                    winner@.take(s as int),
                    first_stage_engines@,
                    upper_stage_engines@,
                    max_engines as nat,
                    grid as nat,
                ),
            decreases winner@.len() - s,
        {
            let base: usize = winner[s].engine;
            let engines: Vec<usize> = if s == 0 {
                engines_to_try(&problem.available_engines, base, first_stage_engines)
            } else {
                engines_to_try(&problem.available_engines, base, upper_stage_engines)
            };
            let stage: Vec<StageSpec> = list_stage_choices(&engines, max_engines, grid);
            let ghost before = views(choices@);
            choices.push(stage);
            proof {
                assert(views(choices@) == before.push(stage@));
                let grown = winner@.take(s + 1);
                assert(grown[s as int] == winner@[s as int]);
                assert forall|k: int| 0 <= k < s implies grown[k] == winner@.take(s as int)[k] by {}
                assert(views(choices@) == refined_choices(
                    problem.available_engines@,
                    grown,
                    first_stage_engines@,
                    upper_stage_engines@,
                    max_engines as nat,
                    grid as nat,
                ));
            }
            s = s + 1;
        }
        assert(winner@.take(winner@.len() as int) == winner@);
        generate_recursive(&choices, 0)
    }

    /// Whether a stage's thrust-to-weight ratio meets the minimum.
    pub fn check_stage_twr(twr: Ratio, min_twr: Ratio) -> (r: bool)
        ensures
            r == stage_lifts(twr, min_twr),
    {
        twr.value.ge(min_twr.value)
    }

    /// Whether a rocket can be built from an evaluated configuration: the
    /// first stage lifts off with the liftoff minimum, and every stage
    /// above it meets the stage minimum.
    pub fn try_build_rocket(performance: &Performance, constraints: Constraints) -> (r: bool)
        ensures
            r == feasible(performance, constraints),
    {
        if !Self::check_stage_twr(performance.liftoff_twr, constraints.min_liftoff_twr) {
            return false;
        }
        let mut i: usize = 1;
        while i < performance.stage_twr.len()
            invariant
                1 <= i,
                forall|k: int|
                    1 <= k < i && k < performance.stage_twr@.len() ==> stage_lifts(
                        #[trigger] performance.stage_twr@[k],
                        constraints.min_stage_twr,
                    ),
            decreases performance.stage_twr@.len() - i,
        {
            if !Self::check_stage_twr(performance.stage_twr[i], constraints.min_stage_twr) {
                return false;
            }
            i = i + 1;
        }
        true
    }

    /// The better of two bests. The second wins only with a strictly
    /// smaller total mass.
    pub fn combine(a: Option<Best>, b: Option<Best>) -> (r: Option<Best>)
        ensures
            r == spec_combine(a, b),
    {
        match b {
            None => a,
            Some(second) => match a {
                None => b,
                Some(first) => if second.total_mass.value.lt(first.total_mass.value) {
                    b
                } else {
                    a
                },
            },
        }
    }

    /// Finds the best of a batch of evaluated configurations: among those
    /// that are feasible and reach the target, the one of least total mass,
    /// and of several such the first.
    pub fn parallel_search(
        evaluations: &Vec<Performance>,
        constraints: Constraints,
        target: Velocity,
    ) -> (r: Option<Best>)
        ensures
            r == best_in(evaluations@, constraints, target, 0, evaluations@.len() as int),
    {
        let mut best: Option<Best> = None;
        let mut j: usize = 0;
        while j < evaluations.len()
            invariant
                j <= evaluations@.len(),
                best == best_in(evaluations@, constraints, target, 0, j as int),
            decreases evaluations@.len() - j,
        {
            let performance: &Performance = &evaluations[j];
            if Self::try_build_rocket(performance, constraints)
                && performance.total_delta_v.value.ge(target.value) {
                let one: Option<Best> = Some(
                    Best { index: j, total_mass: performance.total_mass },
                );
                best = Self::combine(best, one);
            }
            j = j + 1;
        }
        best
    }
}

/// The best of a range is one of its configurations that count, with that
/// configuration's mass; and there is a best as soon as one counts.
pub proof fn lemma_best_counts(
    evaluations: Seq<Performance>,
    constraints: Constraints,
    target: Velocity,
    lo: int,
    hi: int,
)
    requires
        0 <= lo <= hi <= evaluations.len(),
        hi <= usize::MAX,
    ensures
        match best_in(evaluations, constraints, target, lo, hi) {
            Some(best) => {
                &&& lo <= best.index < hi
                &&& qualifies(&evaluations[best.index as int], constraints, target)
                &&& best.total_mass == evaluations[best.index as int].total_mass
            },
            None => forall|j: int|
                lo <= j < hi ==> !qualifies(&#[trigger] evaluations[j], constraints, target),
        },
    decreases hi - lo,
{
    if lo < hi {
        lemma_best_counts(evaluations, constraints, target, lo, hi - 1);
    }
}

/// Where masses are numbers, no configuration of the range that counts is
/// lighter than the best, and none before the best is as light.
pub proof fn lemma_best_is_lightest(
    evaluations: Seq<Performance>,
    constraints: Constraints,
    target: Velocity,
    lo: int,
    hi: int,
)
    requires
        0 <= lo <= hi <= evaluations.len(),
        hi <= usize::MAX,
        masses_are_numbers(evaluations, constraints, target),
    ensures
        best_in(evaluations, constraints, target, lo, hi) matches Some(best) ==> forall|j: int|
            lo <= j < hi && qualifies(&#[trigger] evaluations[j], constraints, target) ==> {
                &&& best.total_mass.value.spec_le(evaluations[j].total_mass.value)
                &&& j < best.index ==> best.total_mass.value.spec_lt(evaluations[j].total_mass.value)
            },
    decreases hi - lo,
{
    if lo < hi {
        lemma_best_is_lightest(evaluations, constraints, target, lo, hi - 1);
        lemma_best_counts(evaluations, constraints, target, lo, hi - 1);
        lemma_best_counts(evaluations, constraints, target, lo, hi);
    }
}

/// A range may be searched in two parts: the best of the whole is the
/// better of the parts' bests. This is what lets workers search parts of a
/// batch side by side.
pub proof fn lemma_search_splits(
    evaluations: Seq<Performance>,
    constraints: Constraints,
    target: Velocity,
    lo: int,
    mid: int,
    hi: int,
)
    requires
        0 <= lo <= mid <= hi <= evaluations.len(),
        hi <= usize::MAX,
        masses_are_numbers(evaluations, constraints, target),
    ensures
        best_in(evaluations, constraints, target, lo, hi) == spec_combine(
            best_in(evaluations, constraints, target, lo, mid),
            best_in(evaluations, constraints, target, mid, hi),
        ),
    decreases hi - mid,
{
    if mid < hi {
        lemma_search_splits(evaluations, constraints, target, lo, mid, hi - 1);
        lemma_best_counts(evaluations, constraints, target, lo, mid);
        lemma_best_counts(evaluations, constraints, target, mid, hi - 1);
        lemma_best_counts(evaluations, constraints, target, lo, hi - 1);
    }
}

} // verus!

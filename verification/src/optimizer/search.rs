//! The course of one grid search: which batch the caller evaluates next,
//! and what each evaluated batch changes.

use vstd::prelude::*;

use crate::stage::Performance;
use crate::units::Velocity;

use super::brute_force::{
    best_in,
    lemma_best_counts,
    qualifies,
    stage_lifts,
    wrapped,
    Best,
    BruteForceOptimizer,
};
use super::configuration::StageSpec;
use super::error::{Infeasibility, OptimizeError};
use super::problem::{Constraints, Problem};

verus! {

/// The best configuration found so far, with what it achieves.
#[derive(Debug, Clone)]
pub struct Candidate {
    /// The stages, bottom first.
    pub configuration: Vec<StageSpec>,
    /// Whether the propellant indices refer to the refined grids.
    pub refined: bool,
    /// What the configuration achieves.
    pub performance: Performance,
}

/// The phases of a search.
#[derive(Debug, Clone, Copy, PartialEq, Eq, Structural)]
pub enum SearchPhase {
    /// The caller is to evaluate the coarse configurations of `stage_count`
    /// stages.
    Coarse { stage_count: u32 },
    /// The caller is to evaluate the refined configurations around the
    /// best candidate.
    Refine,
    /// The search is over.
    Done,
}

/// A search in progress.
#[derive(Debug, Clone)]
pub struct BruteForceSearch {
    pub phase: SearchPhase,
    /// The least stage count that the search tries.
    pub first_stage_count: u32,
    /// The greatest stage count that the search tries.
    pub last_stage_count: u32,
    /// The best candidate so far.
    pub best: Option<Candidate>,
    /// How many configurations the current count covers: all coarse ones
    /// until the refinement starts, then the refined ones.
    pub evaluated: u64,
}

/// Whether two evaluations hold the same figures.
pub open spec fn same_figures(a: &Performance, b: &Performance) -> bool {
    &&& a.stage_delta_v@ == b.stage_delta_v@
    &&& a.stage_twr@ == b.stage_twr@
    &&& a.liftoff_twr == b.liftoff_twr
    &&& a.total_delta_v == b.total_delta_v
    &&& a.total_mass == b.total_mass
}

/// Whether two candidates are the same configuration with the same figures.
pub open spec fn same_candidate(a: Option<Candidate>, b: Option<Candidate>) -> bool {
    match (a, b) {
        (None, None) => true,
        (Some(x), Some(y)) => x.configuration@ == y.configuration@ && x.refined == y.refined
            && same_figures(&x.performance, &y.performance),
        _ => false,
    }
}

/// Whether the best of a batch takes the place of the best so far: the
/// batch has a best, and there was none before or the new one is strictly
/// lighter.
pub open spec fn replaces(local: Option<Best>, best: Option<Candidate>) -> bool {
    local matches Some(found) && (best matches Some(held) ==> found.total_mass.value.spec_lt(
        held.performance.total_mass.value,
    ))
}

/// The least stage count that a search of `problem` tries.
pub open spec fn first_count(problem: &Problem) -> u32 {
    match problem.stage_count {
        Some(count) => count,
        None => 1,
    }
}

/// The greatest stage count that a search of `problem` tries.
pub open spec fn last_count(problem: &Problem) -> u32 {
    match problem.stage_count {
        Some(count) => count,
        None => problem.constraints.max_stages,
    }
}

impl BruteForceSearch {
    /// What holds of a search at every step: the stage counts it tries
    /// form a range from 1 up, the coarse phase stands inside that range,
    /// the refinement has a candidate to refine, and the best candidate is
    /// feasible, reaches the target, and has a stage count of the range.
    pub open spec fn wf(&self, constraints: Constraints, target: Velocity) -> bool {
        &&& 1 <= self.first_stage_count <= self.last_stage_count
        &&& self.phase matches SearchPhase::Coarse { stage_count } ==> self.first_stage_count
            <= stage_count <= self.last_stage_count
        &&& self.phase is Refine ==> self.best is Some
        &&& self.best matches Some(held) ==> {
            &&& qualifies(&held.performance, constraints, target)
            &&& held.performance.stage_twr@.len() == held.configuration@.len()
            &&& self.first_stage_count <= held.configuration@.len() <= self.last_stage_count
        }
    }

    /// The phase that follows an evaluated coarse batch of `stage_count`
    /// stages.
    pub open spec fn after_coarse(&self, stage_count: u32, found: bool) -> SearchPhase {
        if stage_count < self.last_stage_count {
            SearchPhase::Coarse { stage_count: (stage_count + 1) as u32 }
        } else if found {
            SearchPhase::Refine
        } else {
            SearchPhase::Done
        }
    }

    /// How the search ends: with the best candidate, or infeasible after
    /// the counted configurations.
    pub fn outcome(&self) -> (r: Result<&Candidate, OptimizeError>)
        ensures
            match self.best {
                Some(held) => r == Ok::<&Candidate, OptimizeError>(&held),
                None => r == Err::<&Candidate, OptimizeError>(
                    OptimizeError::Infeasible {
                        reason: Infeasibility::NoConfiguration { iterations: self.evaluated },
                    },
                ),
            },
    {
        match &self.best {
            Some(held) => Ok(held),
            None => Err(
                OptimizeError::Infeasible {
                    reason: Infeasibility::NoConfiguration { iterations: self.evaluated },
                },
            ),
        }
    }
}

fn pick(configurations: &Vec<Vec<StageSpec>>, evaluations: &Vec<Performance>, index: usize, refined: bool) -> (r:
    Candidate)
    requires
        index < configurations@.len(),
        index < evaluations@.len(),
    ensures
        r.configuration@ == configurations@[index as int]@,
        r.refined == refined,
        same_figures(&r.performance, &evaluations@[index as int]),
{
    Candidate {
        configuration: configurations[index].clone(),
        refined,
        performance: evaluations[index].duplicate(),
    }
}

impl BruteForceOptimizer {
    /// Opens a search: a malformed problem is refused; else the coarse
    /// phase starts at the fixed stage count, or at one stage where none is
    /// fixed, and will go up to the fixed count or to the stage limit.
    pub fn begin(&self, problem: &Problem) -> (r: Result<BruteForceSearch, OptimizeError>)
        ensures
            match problem.validation() {
                Err(e) => r matches Err(raised) && raised == OptimizeError::InvalidProblem(e),
                Ok(_) => {
                    &&& r matches Ok(search)
                    &&& search.phase == SearchPhase::Coarse { stage_count: first_count(problem) }
                    &&& search.first_stage_count == first_count(problem)
                    &&& search.last_stage_count == last_count(problem)
                    &&& search.best is None
                    &&& search.evaluated == 0
                    &&& search.wf(problem.constraints, problem.target_delta_v)
                },
            },
    {
        match problem.is_valid() {
            Err(e) => {
                return Err(OptimizeError::InvalidProblem(e));
            },
            Ok(_) => {},
        }
        let first: u32 = match problem.stage_count {
            Some(count) => count,
            None => 1,
        };
        let last: u32 = match problem.stage_count {
            Some(count) => count,
            None => problem.constraints.max_stages,
        };
        Ok(
            BruteForceSearch {
                phase: SearchPhase::Coarse { stage_count: first },
                first_stage_count: first,
                last_stage_count: last,
                best: None,
                evaluated: 0,
            },
        )
    }

    /// Takes the evaluated coarse batch of the current stage count.
    ///
    /// The batch's best becomes the best candidate where there was none, or
    /// where it is strictly lighter. The count of evaluated configurations
    /// grows by the batch. The next stage count follows; after the last
    /// one the refinement follows where there is a candidate, with the
    /// count set back to zero, and the search is over where there is none.
    pub fn absorb_coarse(
        search: BruteForceSearch,
        configurations: &Vec<Vec<StageSpec>>,
        evaluations: &Vec<Performance>,
        constraints: Constraints,
        target: Velocity,
    ) -> (r: BruteForceSearch)
        requires
            search.wf(constraints, target),
            search.phase is Coarse,
            configurations@.len() == evaluations@.len(),
            forall|i: int|
                0 <= i < configurations@.len() ==> (#[trigger] configurations@[i])@.len()
                    == search.phase->stage_count && evaluations@[i].stage_twr@.len()
                    == search.phase->stage_count,
        ensures
            r.wf(constraints, target),
            r.first_stage_count == search.first_stage_count,
            r.last_stage_count == search.last_stage_count,
            r.phase == search.after_coarse(search.phase->stage_count, r.best is Some),
            r.evaluated == (if r.phase is Refine {
                0
            } else {
                wrapped(search.evaluated, evaluations@.len())
            }),
            ({
                let local = best_in(evaluations@, constraints, target, 0, evaluations@.len() as int);
                if replaces(local, search.best) {
                    &&& r.best matches Some(held)
                    &&& local->0.index < configurations@.len()
                    &&& held.configuration@ == configurations@[local->0.index as int]@
                    &&& !held.refined
                    &&& same_figures(&held.performance, &evaluations@[local->0.index as int])
                } else {
                    same_candidate(r.best, search.best)
                }
            }),
    {
        let stage_count: u32 = match search.phase {
            SearchPhase::Coarse { stage_count } => stage_count,
            _ => 0,
        };
        let counted: u64 = super::brute_force::advance_counter(search.evaluated, evaluations.len());
        let local: Option<Best> = Self::parallel_search(evaluations, constraints, target);
        proof {
            lemma_best_counts(evaluations@, constraints, target, 0, evaluations@.len() as int);
        }
        let best: Option<Candidate> = match local {
            None => search.best,
            Some(found) => {
                let wins: bool = match &search.best {
                    None => true,
                    Some(held) => found.total_mass.value.lt(held.performance.total_mass.value),
                };
                if wins {
                    Some(pick(configurations, evaluations, found.index, false))
                } else {
                    search.best
                }
            },
        };
        let found_any: bool = best.is_some();
        let phase: SearchPhase = if stage_count < search.last_stage_count {
            SearchPhase::Coarse { stage_count: stage_count + 1 }
        } else if found_any {
            SearchPhase::Refine
        } else {
            SearchPhase::Done
        };
        let evaluated: u64 = match phase {
            SearchPhase::Refine => 0,
            _ => counted,
        };
        BruteForceSearch {
            phase,
            first_stage_count: search.first_stage_count,
            last_stage_count: search.last_stage_count,
            best,
            evaluated,
        }
    }

    /// Takes the evaluated batch of the refinement and ends the search.
    ///
    /// The batch's best becomes the best candidate only where it is
    /// strictly lighter than the coarse winner. The count of evaluated
    /// configurations grows by the batch.
    pub fn absorb_refined(
        search: BruteForceSearch,
        configurations: &Vec<Vec<StageSpec>>,
        evaluations: &Vec<Performance>,
        constraints: Constraints,
        target: Velocity,
    ) -> (r: BruteForceSearch)
        requires
            search.wf(constraints, target),
            search.phase is Refine,
            configurations@.len() == evaluations@.len(),
            forall|i: int|
                0 <= i < configurations@.len() ==> (#[trigger] configurations@[i])@.len()
                    == search.best->0.configuration@.len() && evaluations@[i].stage_twr@.len()
                    == search.best->0.configuration@.len(),
        ensures
            r.wf(constraints, target),
            r.first_stage_count == search.first_stage_count,
            r.last_stage_count == search.last_stage_count,
            r.phase == SearchPhase::Done,
            r.evaluated == wrapped(search.evaluated, evaluations@.len()),
            r.best is Some,
            ({
                let local = best_in(evaluations@, constraints, target, 0, evaluations@.len() as int);
                if replaces(local, search.best) {
                    &&& r.best matches Some(held)
                    &&& local->0.index < configurations@.len()
                    &&& held.configuration@ == configurations@[local->0.index as int]@
                    &&& held.refined
                    &&& same_figures(&held.performance, &evaluations@[local->0.index as int])
                } else {
                    same_candidate(r.best, search.best)
                }
            }),
    {
        let counted: u64 = super::brute_force::advance_counter(search.evaluated, evaluations.len());
        let local: Option<Best> = Self::parallel_search(evaluations, constraints, target);
        proof {
            lemma_best_counts(evaluations@, constraints, target, 0, evaluations@.len() as int);
        }
        let best: Option<Candidate> = match local {
            None => search.best,
            Some(found) => {
                let wins: bool = match &search.best {
                    None => true,
                    Some(held) => found.total_mass.value.lt(held.performance.total_mass.value),
                };
                if wins {
                    Some(pick(configurations, evaluations, found.index, true))
                } else {
                    search.best
                }
            },
        };
        BruteForceSearch {
            phase: SearchPhase::Done,
            first_stage_count: search.first_stage_count,
            last_stage_count: search.last_stage_count,
            best,
            evaluated: counted,
        }
    }
}

/// The best candidate of a search respects the thrust-to-weight rules and
/// reaches the target: its first stage meets the liftoff minimum at sea
/// level, every stage above it meets the stage minimum in vacuum, and its
/// stage count lies in the range that the search tries.
pub proof fn lemma_candidate_respects_rules(
    search: &BruteForceSearch,
    constraints: Constraints,
    target: Velocity,
)
    requires
        search.wf(constraints, target),
        search.best is Some,
    ensures
        stage_lifts(search.best->0.performance.liftoff_twr, constraints.min_liftoff_twr),
        forall|i: int|
            1 <= i < search.best->0.configuration@.len() ==> stage_lifts(
                #[trigger] search.best->0.performance.stage_twr@[i],
                constraints.min_stage_twr,
            ),
        search.best->0.performance.total_delta_v.value.spec_ge(target.value),
        1 <= search.first_stage_count <= search.best->0.configuration@.len()
            <= search.last_stage_count,
{
}

/// A search of a well-formed problem tries the stage counts from 1 to the
/// stage limit, or the one count that the problem fixes.
pub proof fn lemma_stage_count_range(problem: &Problem)
    requires
        problem.valid(),
    ensures
        1 <= first_count(problem) <= last_count(problem) <= problem.constraints.max_stages,
        problem.stage_count is None ==> first_count(problem) == 1 && last_count(problem)
            == problem.constraints.max_stages,
{
}

} // verus!

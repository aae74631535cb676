//! Monte Carlo runs over perturbed problems: the plan of a run, its
//! bookkeeping, and the order statistics of its samples.

use vstd::prelude::*;

use crate::units::order::{order_by_key, stable_order};
use crate::units::{Mass, Scalar, Velocity};

use super::error::OptimizeError;
use super::problem::Problem;
use super::select::SelectedOptimizer;
use super::solution::Solution;
use super::uncertainty::Uncertainty;

verus! {

/// What a Monte Carlo run found.
#[derive(Debug, Clone)]
pub struct MonteCarloResults {
    /// Velocity change of every sample that had a solution, in m/s.
    pub delta_v_samples: Vec<Scalar>,
    /// Total mass of every sample that had a solution, in kilograms.
    pub mass_samples: Vec<Scalar>,
    /// Samples whose solution reached the target.
    pub successes: u64,
    /// Samples in all.
    pub total_runs: u64,
    /// Samples without a solution.
    pub failures: u64,
    /// The target that the samples were held against.
    pub target_delta_v: Velocity,
    /// Wall-clock time of the run, in milliseconds.
    pub runtime_ms: u64,
    /// The solution of the unperturbed problem.
    pub nominal_solution: Solution,
}

/// A part of a whole, as two counts.
#[derive(Debug, Clone, Copy, PartialEq, Eq, Structural)]
pub struct Fraction {
    pub numerator: u64,
    pub denominator: u64,
}

/// Runs Monte Carlo analyses under one uncertainty.
#[derive(Debug, Clone, Copy, PartialEq, Eq, Structural)]
pub struct MonteCarloRunner {
    pub uncertainty: Uncertainty,
    pub show_progress: bool,
}

/// The books of a run while its samples come in.
#[derive(Debug, Clone)]
pub struct MonteCarloRun {
    pub delta_v_samples: Vec<Scalar>,
    pub mass_samples: Vec<Scalar>,
    pub successes: u64,
    pub failures: u64,
    /// Samples recorded so far.
    pub completed: u64,
    /// Samples that the run is to take.
    pub iterations: u64,
    pub target_delta_v: Velocity,
    pub nominal_solution: Solution,
}

/// What follows the nominal solution.
#[derive(Debug, Clone)]
pub enum MonteCarloPlan {
    /// Nothing is uncertain: the nominal solution is the one sample.
    Finished(MonteCarloResults),
    /// The caller is to solve `iterations` perturbed problems and record
    /// each.
    Sampling(MonteCarloRun),
}

/// How many of the velocity changes reach the target.
pub open spec fn reaching(samples: Seq<Scalar>, target: Velocity) -> nat
    decreases samples.len(),
{
    if samples.len() == 0 {
        0
    } else {
        reaching(samples.drop_last(), target) + (if samples.last().spec_ge(target.value) {
            1nat
        } else {
            0nat
        })
    }
}

/// No more samples reach the target than there are.
pub proof fn lemma_reaching_bound(samples: Seq<Scalar>, target: Velocity)
    ensures
        reaching(samples, target) <= samples.len(),
    decreases samples.len(),
{
    if samples.len() > 0 {
        lemma_reaching_bound(samples.drop_last(), target);
    }
}

/// The sample at `rank` of the samples in ascending order, the last where
/// `rank` is beyond it, and zero where there is no sample.
pub open spec fn ranked_sample(samples: Seq<Scalar>, rank: nat) -> Scalar {
    if samples.len() == 0 {
        Scalar::spec_zero()
    } else {
        let order = stable_order(samples, samples.len(), false);
        let at = if rank < samples.len() {
            rank as int
        } else {
            samples.len() - 1
        };
        samples[order[at] as int]
    }
}

/// The sample at `rank` of the samples in ascending order; `rank` comes
/// from a percentile by rounding to the nearest rank. A rank beyond the
/// last sample gives the last, and no samples give zero.
pub fn percentile_of(samples: &Vec<Scalar>, rank: usize) -> (r: Scalar)
    ensures
        r == ranked_sample(samples@, rank as nat),
{
    if samples.len() == 0 {
        return Scalar::zero();
    }
    let order: Vec<usize> = order_by_key(samples, false);
    proof {
        crate::units::order::lemma_stable_order_permutes(samples@, samples@.len(), false);
    }
    let at: usize = if rank < samples.len() {
        rank
    } else {
        samples.len() - 1
    };
    samples[order[at]]
}

impl MonteCarloResults {
    /// The share of successful samples, as the fraction it is computed
    /// from: successes over runs, and 0 of 1 where nothing ran.
    pub open spec fn spec_success_probability(&self) -> Fraction {
        if self.total_runs == 0 {
            Fraction { numerator: 0, denominator: 1 }
        } else {
            Fraction { numerator: self.successes, denominator: self.total_runs }
        }
    }

    /// The share of samples that reached the target, as successes over
    /// runs.
    pub fn success_probability(&self) -> (r: Fraction)
        ensures
            r == self.spec_success_probability(),
            r.denominator > 0,
    {
        if self.total_runs == 0 {
            Fraction { numerator: 0, denominator: 1 }
        } else {
            Fraction { numerator: self.successes, denominator: self.total_runs }
        }
    }

    /// The velocity change at `rank` of the samples in ascending order.
    pub fn delta_v_percentile(&self, rank: usize) -> (r: Scalar)
        ensures
            r == ranked_sample(self.delta_v_samples@, rank as nat),
    {
        percentile_of(&self.delta_v_samples, rank)
    }

    /// The total mass at `rank` of the samples in ascending order.
    pub fn mass_percentile(&self, rank: usize) -> (r: Scalar)
        ensures
            r == ranked_sample(self.mass_samples@, rank as nat),
    {
        percentile_of(&self.mass_samples, rank)
    }
}

impl MonteCarloRun {
    /// What holds of the books at every step: no more samples are recorded
    /// than the run takes, each recorded sample is a failure or has left
    /// one entry in each list, and the successes are the recorded velocity
    /// changes that reach the target.
    pub open spec fn wf(&self) -> bool {
        &&& self.completed <= self.iterations
        &&& self.failures <= self.completed
        &&& self.delta_v_samples@.len() == self.completed - self.failures
        &&& self.mass_samples@.len() == self.completed - self.failures
        &&& self.successes == reaching(self.delta_v_samples@, self.target_delta_v)
    }

    /// Whether a sample with this velocity change is a success.
    pub open spec fn succeeds(&self, delta_v: Velocity) -> bool {
        delta_v.value.spec_ge(self.target_delta_v.value)
    }

    /// Records a sample that had a solution: its velocity change and total
    /// mass join the lists, and it counts as a success where the velocity
    /// change reaches the target.
    pub fn record_solution(&mut self, delta_v: Velocity, total_mass: Mass)
        requires
            old(self).wf(),
            old(self).completed < old(self).iterations,
        ensures
            final(self).wf(),
            final(self).delta_v_samples@ == old(self).delta_v_samples@.push(delta_v.value),
            final(self).mass_samples@ == old(self).mass_samples@.push(total_mass.value),
            final(self).successes == old(self).successes + (if old(self).succeeds(delta_v) {
                1int
            } else {
                0int
            }),
            final(self).failures == old(self).failures,
            final(self).completed == old(self).completed + 1,
            final(self).iterations == old(self).iterations,
            final(self).target_delta_v == old(self).target_delta_v,
            final(self).nominal_solution == old(self).nominal_solution,
    {
        proof {
            lemma_reaching_bound(self.delta_v_samples@, self.target_delta_v);
            assert(self.delta_v_samples@.push(delta_v.value).drop_last() == self.delta_v_samples@);
        }
        self.delta_v_samples.push(delta_v.value);
        self.mass_samples.push(total_mass.value);
        if delta_v.value.ge(self.target_delta_v.value) {
            self.successes = self.successes + 1;
        }
        self.completed = self.completed + 1;
    }

    /// Records a sample that had no solution: it counts as a failure and
    /// leaves the lists as they are.
    pub fn record_failure(&mut self)
        requires
            old(self).wf(),
            old(self).completed < old(self).iterations,
        ensures
            final(self).wf(),
            final(self).delta_v_samples == old(self).delta_v_samples,
            final(self).mass_samples == old(self).mass_samples,
            final(self).successes == old(self).successes,
            final(self).failures == old(self).failures + 1,
            final(self).completed == old(self).completed + 1,
            final(self).iterations == old(self).iterations,
            final(self).target_delta_v == old(self).target_delta_v,
            final(self).nominal_solution == old(self).nominal_solution,
    {
        self.failures = self.failures + 1;
        self.completed = self.completed + 1;
    }

    /// Closes the books once every sample is recorded.
    pub fn finish(self, runtime_ms: u64) -> (r: MonteCarloResults)
        requires
            self.wf(),
            self.completed == self.iterations,
        ensures
            r.delta_v_samples == self.delta_v_samples,
            r.mass_samples == self.mass_samples,
            r.successes == self.successes,
            r.failures == self.failures,
            r.total_runs == self.iterations,
            r.target_delta_v == self.target_delta_v,
            r.runtime_ms == runtime_ms,
            r.nominal_solution == self.nominal_solution,
            r.successes == reaching(r.delta_v_samples@, r.target_delta_v),
            r.delta_v_samples@.len() + r.failures == r.total_runs,
            r.mass_samples@.len() == r.delta_v_samples@.len(),
            r.successes + r.failures <= r.total_runs,
    {
        proof {
            lemma_reaching_bound(self.delta_v_samples@, self.target_delta_v);
        }
        MonteCarloResults {
            delta_v_samples: self.delta_v_samples,
            mass_samples: self.mass_samples,
            successes: self.successes,
            total_runs: self.iterations,
            failures: self.failures,
            target_delta_v: self.target_delta_v,
            runtime_ms,
            nominal_solution: self.nominal_solution,
        }
    }
}

impl MonteCarloRunner {
    /// A runner without progress reports.
    pub fn new(uncertainty: Uncertainty) -> (r: MonteCarloRunner)
        ensures
            r == (MonteCarloRunner { uncertainty, show_progress: false }),
    {
        MonteCarloRunner { uncertainty, show_progress: false }
    }

    /// The same runner with progress reports switched on or off.
    pub fn with_progress(self, show: bool) -> (r: MonteCarloRunner)
        ensures
            r == (MonteCarloRunner { show_progress: show, ..self }),
    {
        MonteCarloRunner { show_progress: show, ..self }
    }

    /// The solver for a problem of a run, nominal or perturbed: the
    /// closed-form solver for one engine type and a stage count fixed at 2,
    /// the grid search otherwise.
    pub fn optimize_problem(&self, problem: &Problem) -> (r: SelectedOptimizer)
        ensures
            r == SelectedOptimizer::spec_automatic(problem),
    {
        SelectedOptimizer::automatic(problem)
    }

    /// Opens a run: a malformed problem is refused before anything is
    /// solved; else the result names the solver for the nominal problem.
    pub fn begin(&self, problem: &Problem) -> (r: Result<SelectedOptimizer, OptimizeError>)
        ensures
            match problem.validation() {
                Err(e) => r == Err::<SelectedOptimizer, OptimizeError>(
                    OptimizeError::InvalidProblem(e),
                ),
                Ok(_) => r == Ok::<SelectedOptimizer, OptimizeError>(
                    SelectedOptimizer::spec_automatic(problem),
                ),
            },
    {
        match problem.is_valid() {
            Err(e) => Err(OptimizeError::InvalidProblem(e)),
            Ok(_) => Ok(self.optimize_problem(problem)),
        }
    }

    /// What a run does before it samples. A malformed problem is refused;
    /// a nominal problem without a solution ends the run with the solver's
    /// error. Else, where nothing is uncertain, the run is finished with the
    /// nominal solution as its one sample, which counts as a success; and
    /// where something is, the books are opened for `iterations` samples.
    pub open spec fn planned(
        &self,
        problem: &Problem,
        nominal: Result<Solution, OptimizeError>,
        nominal_delta_v: Velocity,
        nominal_mass: Mass,
        iterations: u64,
        runtime_ms: u64,
        r: Result<MonteCarloPlan, OptimizeError>,
    ) -> bool {
        match problem.validation() {
            Err(e) => r matches Err(raised) && raised == OptimizeError::InvalidProblem(e),
            Ok(_) => match nominal {
                Err(e) => r matches Err(raised) && raised == e,
                Ok(nominal_solution) => if self.uncertainty.zero() {
                    &&& r matches Ok(MonteCarloPlan::Finished(results))
                    &&& results.delta_v_samples@ == seq![nominal_delta_v.value]
                    &&& results.mass_samples@ == seq![nominal_mass.value]
                    &&& results.successes == 1
                    &&& results.total_runs == 1
                    &&& results.failures == 0
                    &&& results.target_delta_v == problem.target_delta_v
                    &&& results.runtime_ms == runtime_ms
                    &&& results.nominal_solution == nominal_solution
                } else {
                    &&& r matches Ok(MonteCarloPlan::Sampling(books))
                    &&& books.wf()
                    &&& books.delta_v_samples@.len() == 0
                    &&& books.mass_samples@.len() == 0
                    &&& books.successes == 0
                    &&& books.failures == 0
                    &&& books.completed == 0
                    &&& books.iterations == iterations
                    &&& books.target_delta_v == problem.target_delta_v
                    &&& books.nominal_solution == nominal_solution
                },
            },
        }
    }

    /// Runs the analysis as far as it goes without sampling.
    ///
    /// The problem is validated first and refused where it is malformed.
    /// `nominal` is what the solver named by [`MonteCarloRunner::begin`]
    /// made of the problem as it is, with the velocity change and total
    /// mass of its solution; its error ends the run. Where nothing is
    /// uncertain the run is finished: its one sample is the nominal
    /// solution, which counts as a success, whatever `iterations` says.
    /// Else the books are opened for `iterations` samples, each of which is
    /// to be solved by the solver that [`MonteCarloRunner::optimize_problem`]
    /// names for it.
    pub fn run(
        &self,
        problem: &Problem,
        nominal: Result<Solution, OptimizeError>,
        nominal_delta_v: Velocity,
        nominal_mass: Mass,
        iterations: u64,
        runtime_ms: u64,
    ) -> (r: Result<MonteCarloPlan, OptimizeError>)
        ensures
            self.planned(
                problem,
                nominal,
                nominal_delta_v,
                nominal_mass,
                iterations,
                runtime_ms,
                r,
            ),
    {
        match problem.is_valid() {
            Err(e) => {
                return Err(OptimizeError::InvalidProblem(e));
            },
            Ok(_) => {},
        }
        let nominal_solution: Solution = match nominal {
            Err(e) => {
                return Err(e);
            },
            Ok(solution) => solution,
        };
        if self.uncertainty.is_zero() {
            let mut delta_v_samples: Vec<Scalar> = Vec::new();
            delta_v_samples.push(nominal_delta_v.value);
            let mut mass_samples: Vec<Scalar> = Vec::new();
            mass_samples.push(nominal_mass.value);
            return Ok(
                MonteCarloPlan::Finished(
                    MonteCarloResults {
                        delta_v_samples,
                        mass_samples,
                        successes: 1,
                        total_runs: 1,
                        failures: 0,
                        target_delta_v: problem.target_delta_v,
                        runtime_ms,
                        nominal_solution,
                    },
                ),
            );
        }
        Ok(
            MonteCarloPlan::Sampling(
                MonteCarloRun {
                    delta_v_samples: Vec::new(),
                    mass_samples: Vec::new(),
                    successes: 0,
                    failures: 0,
                    completed: 0,
                    iterations,
                    target_delta_v: problem.target_delta_v,
                    nominal_solution,
                },
            ),
        )
    }
}

/// Results of one sample that succeeded have a success probability of 1:
/// this is what a run without uncertainty returns, for every iteration
/// count.
pub proof fn lemma_single_sample_certain(results: &MonteCarloResults)
    requires
        results.successes == 1,
        results.total_runs == 1,
    ensures
        results.spec_success_probability() == (Fraction { numerator: 1, denominator: 1 }),
        results.spec_success_probability().numerator
            == results.spec_success_probability().denominator,
{
}

} // verus!

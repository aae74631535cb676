use tsi::cli::commands::{
    check_calculate_args, check_optimize_args, select_optimizer, uncertainty_from_level,
    ArgumentError,
};
use tsi::cli::{
    CalculateArgs, CalculateOutputFormat, Gravity, OptimizeArgs, OptimizerChoice, UncertaintyLevel,
};
use tsi::engine::{Engine, Propellant};
use tsi::optimizer::brute_force::Best;
use tsi::optimizer::configuration::{
    engines_to_try, generate_recursive, leading_engines, list_stage_choices,
};
use tsi::optimizer::search::SearchPhase;
use tsi::optimizer::{
    BruteForceOptimizer, Constraints, Infeasibility, OptimizeError, Problem, SelectedOptimizer,
    StageSpec, Uncertainty,
};
use tsi::output::diagram::{align_right, draw_nozzles};
use tsi::stage::Performance;
use tsi::units::{Force, Isp, Mass, Ratio, Scalar, Velocity};

fn s(x: f64) -> Scalar {
    Scalar::from_bits(x.to_bits())
}

fn f(x: Scalar) -> f64 {
    f64::from_bits(x.to_bits())
}

fn engine(name: &str, sl: f64, isp_vac: f64) -> Engine {
    Engine::new(
        name,
        Force::newtons(s(sl)),
        Force::newtons(s(sl * 1.1)),
        Isp::seconds(s(isp_vac - 30.0)),
        Isp::seconds(s(isp_vac)),
        Mass::kg(s(1000.0)),
        Propellant::LoxCh4,
    )
}

fn spec(engine: usize, engine_count: u32, propellant: usize) -> StageSpec {
    StageSpec { engine, engine_count, propellant }
}

fn performance(liftoff: f64, stage_twr: &[f64], delta_v: f64, mass: f64) -> Performance {
    Performance {
        stage_delta_v: stage_twr.iter().map(|_| Velocity::mps(s(0.0))).collect(),
        stage_twr: stage_twr.iter().map(|x| Ratio::new(s(*x))).collect(),
        liftoff_twr: Ratio::new(s(liftoff)),
        total_delta_v: Velocity::mps(s(delta_v)),
        total_mass: Mass::kg(s(mass)),
    }
}

fn problem(engines: Vec<Engine>) -> Problem {
    Problem::new(Mass::kg(s(5000.0)), Velocity::mps(s(9000.0)), engines, Constraints::default())
}

#[test]
fn stage_choices_run_engine_count_grid() {
    let choices = list_stage_choices(&vec![7, 2], 2, 3);
    assert_eq!(
        choices,
        vec![
            spec(7, 1, 0),
            spec(7, 1, 1),
            spec(7, 1, 2),
            spec(7, 2, 0),
            spec(7, 2, 1),
            spec(7, 2, 2),
            spec(2, 1, 0),
            spec(2, 1, 1),
            spec(2, 1, 2),
            spec(2, 2, 0),
            spec(2, 2, 1),
            spec(2, 2, 2),
        ]
    );
    assert!(list_stage_choices(&vec![], 2, 3).is_empty());
    assert!(list_stage_choices(&vec![1], 0, 3).is_empty());
    assert!(list_stage_choices(&vec![1], 2, 0).is_empty());
}

#[test]
fn configurations_are_the_product_in_order() {
    let choices = vec![vec![spec(0, 1, 0), spec(0, 2, 0)], vec![spec(1, 1, 0), spec(1, 1, 1), spec(1, 1, 2)]];
    let all = generate_recursive(&choices, 0);
    assert_eq!(all.len(), 6);
    assert_eq!(all[0], vec![spec(0, 1, 0), spec(1, 1, 0)]);
    assert_eq!(all[1], vec![spec(0, 1, 0), spec(1, 1, 1)]);
    assert_eq!(all[2], vec![spec(0, 1, 0), spec(1, 1, 2)]);
    assert_eq!(all[3], vec![spec(0, 2, 0), spec(1, 1, 0)]);
    assert_eq!(all[5], vec![spec(0, 2, 0), spec(1, 1, 2)]);
    let tails = generate_recursive(&choices, 1);
    assert_eq!(tails, vec![vec![spec(1, 1, 0)], vec![spec(1, 1, 1)], vec![spec(1, 1, 2)]]);
    assert_eq!(generate_recursive(&choices, 2), vec![Vec::<StageSpec>::new()]);
    let hollow = vec![vec![spec(0, 1, 0)], vec![]];
    assert!(generate_recursive(&hollow, 0).is_empty());
}

#[test]
fn coarse_configurations_count_and_shape() {
    let optimizer = BruteForceOptimizer::new(3, s(100_000.0), s(300_000.0));
    let problem = Problem::new(
        Mass::kg(s(5000.0)),
        Velocity::mps(s(9000.0)),
        vec![engine("a", 1.0, 300.0), engine("b", 2.0, 310.0), engine("c", 3.0, 320.0), engine("d", 4.0, 330.0)],
        Constraints::default().with_max_engines(2),
    );
    let first = vec![3, 2, 1, 0];
    let upper = vec![0, 1, 2, 3];
    let one = optimizer.generate_configurations(&problem, 1, &first, &upper);
    assert_eq!(one.len(), 3 * 2 * 3);
    assert_eq!(one[0], vec![spec(3, 1, 0)]);
    assert_eq!(one[17], vec![spec(1, 2, 2)]);
    let two = optimizer.generate_configurations(&problem, 2, &first, &upper);
    assert_eq!(two.len(), 18 * 18);
    assert_eq!(two[0], vec![spec(3, 1, 0), spec(0, 1, 0)]);
    assert_eq!(two[1], vec![spec(3, 1, 0), spec(0, 1, 1)]);
    assert_eq!(two[18], vec![spec(3, 1, 1), spec(0, 1, 0)]);
    assert_eq!(two[18 * 18 - 1], vec![spec(1, 2, 2), spec(2, 2, 2)]);
    assert!(two.iter().all(|c| c.len() == 2 && c[0].engine != 0 && c[1].engine != 3));
    let mut sorted = two.clone();
    sorted.sort_by_key(|c| c.iter().map(|x| (x.engine, x.engine_count, x.propellant)).collect::<Vec<_>>());
    sorted.dedup();
    assert_eq!(sorted.len(), two.len());
    assert_eq!(optimizer.generate_configurations(&problem, 0, &first, &upper), vec![Vec::<StageSpec>::new()]);
}

#[test]
fn leading_engines_takes_three() {
    assert_eq!(leading_engines(&vec![4, 3, 2, 1, 0]), vec![4, 3, 2]);
    assert_eq!(leading_engines(&vec![4, 3]), vec![4, 3]);
    assert!(leading_engines(&vec![]).is_empty());
}

#[test]
fn refinement_tries_the_winner_and_two_others() {
    let engines =
        vec![engine("a", 1.0, 300.0), engine("b", 2.0, 310.0), engine("c", 3.0, 320.0), engine("a", 4.0, 330.0)];
    assert_eq!(engines_to_try(&engines, 2, &vec![0, 1, 2, 3]), vec![2, 0, 1]);
    assert_eq!(engines_to_try(&engines, 0, &vec![0, 1, 2, 3]), vec![0, 1]);
    // an engine of the same name as the winner is no alternative
    assert_eq!(engines_to_try(&engines, 0, &vec![3, 1, 2]), vec![0, 1]);
    assert_eq!(engines_to_try(&engines, 1, &vec![3, 0, 2]), vec![1, 3]);
    assert_eq!(engines_to_try(&engines, 1, &vec![]), vec![1]);
}

#[test]
fn refined_configurations_use_fine_steps() {
    let optimizer = BruteForceOptimizer::new(3, s(100_000.0), s(300_000.0));
    assert_eq!(optimizer.fine_steps, 2);
    let problem = Problem::new(
        Mass::kg(s(5000.0)),
        Velocity::mps(s(9000.0)),
        vec![engine("a", 1.0, 300.0), engine("b", 2.0, 310.0)],
        Constraints::default().with_max_engines(2),
    );
    let winner = vec![spec(1, 2, 0), spec(0, 1, 2)];
    let configs = optimizer.generate_refined(&problem, &winner, &vec![1, 0], &vec![1, 0]);
    assert_eq!(configs.len(), (2 * 2 * 2) * (2 * 2 * 2));
    assert_eq!(configs[0], vec![spec(1, 1, 0), spec(0, 1, 0)]);
    assert_eq!(configs[8], vec![spec(1, 1, 1), spec(0, 1, 0)]);
    assert_eq!(configs[63], vec![spec(0, 2, 1), spec(1, 2, 1)]);
}

#[test]
fn engines_are_ranked_per_stage() {
    let optimizer = BruteForceOptimizer::default();
    let engines = vec![
        engine("weak", 100.0, 380.0),
        engine("strong", 900.0, 320.0),
        engine("middle", 500.0, 350.0),
        engine("twin", 500.0, 350.0),
    ];
    let merit: Vec<Scalar> =
        engines.iter().map(|e| s(f(e.thrust_sl().as_newtons()) / f(e.dry_mass().as_kg()))).collect();
    let (first, upper) = optimizer.sort_engines_by_preference(&engines, &merit);
    assert_eq!(first, vec![1, 2, 3, 0]);
    assert_eq!(upper, vec![0, 2, 3, 1]);
    let plain = optimizer.with_vacuum_preference(false);
    let (first, upper) = plain.sort_engines_by_preference(&engines, &merit);
    assert_eq!(first, vec![0, 1, 2, 3]);
    assert_eq!(upper, vec![0, 1, 2, 3]);
}

#[test]
fn brute_force_settings() {
    let d = BruteForceOptimizer::default();
    assert_eq!(d.coarse_steps, 15);
    assert_eq!(d.fine_steps, 10);
    assert_eq!(f(d.min_propellant_kg), 10_000.0);
    assert_eq!(f(d.max_propellant_kg), 5_000_000.0);
    assert!(d.show_progress);
    assert!(d.prefer_vacuum_upper);
    let n = BruteForceOptimizer::new(5, s(1.0), s(2.0));
    assert_eq!(n.coarse_steps, 5);
    assert_eq!(n.fine_steps, 3);
    assert!(!n.show_progress);
    assert!(n.with_progress(true).show_progress);
    assert!(!n.with_vacuum_preference(false).prefer_vacuum_upper);
    assert_eq!(BruteForceOptimizer::new(1, s(1.0), s(2.0)).fine_steps, 1);
    assert_eq!(BruteForceOptimizer::new(u32::MAX, s(1.0), s(2.0)).fine_steps, u32::MAX / 2 + 1);
}

#[test]
fn feasibility_tests_liftoff_and_upper_stages() {
    let c = Constraints::default();
    assert!(BruteForceOptimizer::try_build_rocket(&performance(1.2, &[0.1, 0.5], 0.0, 1.0), c));
    assert!(!BruteForceOptimizer::try_build_rocket(&performance(1.19, &[9.0, 9.0], 0.0, 1.0), c));
    assert!(!BruteForceOptimizer::try_build_rocket(&performance(1.5, &[9.0, 0.49], 0.0, 1.0), c));
    assert!(!BruteForceOptimizer::try_build_rocket(&performance(1.5, &[9.0, 0.6, 0.4], 0.0, 1.0), c));
    assert!(BruteForceOptimizer::try_build_rocket(&performance(1.5, &[0.0], 0.0, 1.0), c));
    assert!(!BruteForceOptimizer::try_build_rocket(&performance(f64::NAN, &[1.0], 0.0, 1.0), c));
    assert!(BruteForceOptimizer::check_stage_twr(Ratio::new(s(0.5)), Ratio::new(s(0.5))));
    assert!(!BruteForceOptimizer::check_stage_twr(Ratio::new(s(0.4)), Ratio::new(s(0.5))));
}

#[test]
fn search_picks_the_first_lightest_that_counts() {
    let c = Constraints::default();
    let target = Velocity::mps(s(9000.0));
    let batch = vec![
        performance(1.5, &[1.0, 1.0], 9500.0, 90.0),
        performance(1.0, &[1.0, 1.0], 9500.0, 10.0),
        performance(1.5, &[1.0, 1.0], 8999.0, 20.0),
        performance(1.5, &[1.0, 1.0], 9000.0, 50.0),
        performance(1.5, &[1.0, 1.0], 9100.0, 50.0),
        performance(1.5, &[1.0, 0.2], 9100.0, 30.0),
    ];
    let best = BruteForceOptimizer::parallel_search(&batch, c, target);
    assert_eq!(best, Some(Best { index: 3, total_mass: Mass::kg(s(50.0)) }));
    assert_eq!(BruteForceOptimizer::parallel_search(&batch[..3].to_vec(), c, target).unwrap().index, 0);
    assert_eq!(BruteForceOptimizer::parallel_search(&batch[1..3].to_vec(), c, target), None);
    assert_eq!(BruteForceOptimizer::parallel_search(&vec![], c, target), None);
}

#[test]
fn search_in_parts_gives_the_same_best() {
    let c = Constraints::default();
    let target = Velocity::mps(s(9000.0));
    let masses = [70.0, 40.0, 90.0, 40.0, 10.0, 55.0, 10.0, 80.0];
    let batch: Vec<Performance> = masses
        .iter()
        .enumerate()
        .map(|(i, m)| performance(if i == 4 { 1.0 } else { 1.3 }, &[1.0, 1.0], 9000.0, *m))
        .collect();
    let whole = BruteForceOptimizer::parallel_search(&batch, c, target);
    assert_eq!(whole.unwrap().index, 6);
    for cut in 0..=batch.len() {
        let left = BruteForceOptimizer::parallel_search(&batch[..cut].to_vec(), c, target);
        let right = BruteForceOptimizer::parallel_search(&batch[cut..].to_vec(), c, target)
            .map(|b| Best { index: b.index + cut, total_mass: b.total_mass });
        assert_eq!(BruteForceOptimizer::combine(left, right), whole);
    }
    let a = Some(Best { index: 0, total_mass: Mass::kg(s(5.0)) });
    let b = Some(Best { index: 1, total_mass: Mass::kg(s(5.0)) });
    assert_eq!(BruteForceOptimizer::combine(a, b), a);
    assert_eq!(BruteForceOptimizer::combine(None, b), b);
    assert_eq!(BruteForceOptimizer::combine(a, None), a);
    assert_eq!(BruteForceOptimizer::combine(None, None), None);
}

#[test]
fn search_walks_the_stage_counts_then_refines() {
    let optimizer = BruteForceOptimizer::new(2, s(1.0), s(2.0));
    let problem = problem(vec![engine("a", 1.0, 300.0)]);
    let c = problem.constraints;
    let target = problem.target_delta_v;
    let search = optimizer.begin(&problem).unwrap();
    assert_eq!(search.phase, SearchPhase::Coarse { stage_count: 1 });
    assert_eq!(search.evaluated, 0);
    assert!(search.best.is_none());

    let configs = vec![vec![spec(0, 1, 0)], vec![spec(0, 1, 1)]];
    let evals = vec![performance(1.5, &[1.0], 9100.0, 80.0), performance(1.5, &[1.0], 9100.0, 60.0)];
    let search = BruteForceOptimizer::absorb_coarse(search, &configs, &evals, c, target);
    assert_eq!(search.phase, SearchPhase::Coarse { stage_count: 2 });
    assert_eq!(search.evaluated, 2);
    assert_eq!(search.best.as_ref().unwrap().configuration, vec![spec(0, 1, 1)]);

    // an equal mass does not replace the candidate
    let configs = vec![vec![spec(0, 1, 0), spec(0, 1, 0)]];
    let evals = vec![performance(1.5, &[1.0, 1.0], 9100.0, 60.0)];
    let search = BruteForceOptimizer::absorb_coarse(search, &configs, &evals, c, target);
    assert_eq!(search.phase, SearchPhase::Coarse { stage_count: 3 });
    assert_eq!(search.evaluated, 3);
    assert_eq!(search.best.as_ref().unwrap().configuration, vec![spec(0, 1, 1)]);

    // a lighter one does; after the last stage count the count starts anew
    let configs = vec![vec![spec(0, 1, 0), spec(0, 2, 0), spec(0, 1, 1)]];
    let evals = vec![performance(1.5, &[1.0, 1.0, 0.5], 9100.0, 59.0)];
    let search = BruteForceOptimizer::absorb_coarse(search, &configs, &evals, c, target);
    assert_eq!(search.phase, SearchPhase::Refine);
    assert_eq!(search.evaluated, 0);
    let held = search.best.as_ref().unwrap();
    assert_eq!(held.configuration.len(), 3);
    assert!(!held.refined);
    assert_eq!(f(held.performance.total_mass.as_kg()), 59.0);

    let configs = vec![
        vec![spec(0, 1, 0), spec(0, 2, 0), spec(0, 1, 0)],
        vec![spec(0, 1, 1), spec(0, 2, 0), spec(0, 1, 0)],
    ];
    let evals = vec![
        performance(1.5, &[1.0, 1.0, 0.5], 9100.0, 59.0),
        performance(1.5, &[1.0, 1.0, 0.5], 9001.0, 58.5),
    ];
    let search = BruteForceOptimizer::absorb_refined(search, &configs, &evals, c, target);
    assert_eq!(search.phase, SearchPhase::Done);
    assert_eq!(search.evaluated, 2);
    let winner = search.outcome().unwrap();
    assert!(winner.refined);
    assert_eq!(winner.configuration, configs[1]);
    assert_eq!(f(winner.performance.total_mass.as_kg()), 58.5);
}

#[test]
fn search_without_a_candidate_ends_infeasible() {
    let optimizer = BruteForceOptimizer::new(2, s(1.0), s(2.0));
    let problem = problem(vec![engine("a", 1.0, 300.0)]).with_stage_count(2);
    let c = problem.constraints;
    let target = problem.target_delta_v;
    let search = optimizer.begin(&problem).unwrap();
    assert_eq!(search.phase, SearchPhase::Coarse { stage_count: 2 });
    let configs = vec![vec![spec(0, 1, 0), spec(0, 1, 0)], vec![spec(0, 1, 0), spec(0, 1, 1)]];
    let evals = vec![
        performance(1.1, &[1.0, 1.0], 9100.0, 80.0),
        performance(1.5, &[1.0, 1.0], 100.0, 60.0),
    ];
    let search = BruteForceOptimizer::absorb_coarse(search, &configs, &evals, c, target);
    assert_eq!(search.phase, SearchPhase::Done);
    assert_eq!(
        search.outcome().err(),
        Some(OptimizeError::Infeasible { reason: Infeasibility::NoConfiguration { iterations: 2 } })
    );
}

#[test]
fn optimizer_choice_rules() {
    let simple = problem(vec![engine("a", 1.0, 300.0)]).with_stage_count(2);
    let open = problem(vec![engine("a", 1.0, 300.0)]);
    assert_eq!(select_optimizer(OptimizerChoice::Auto, &simple), SelectedOptimizer::Analytical);
    assert_eq!(select_optimizer(OptimizerChoice::Auto, &open), SelectedOptimizer::BruteForce);
    assert_eq!(select_optimizer(OptimizerChoice::BruteForce, &simple), SelectedOptimizer::BruteForce);
    assert_eq!(select_optimizer(OptimizerChoice::Analytical, &open), SelectedOptimizer::Analytical);
    assert_eq!(OptimizerChoice::default(), OptimizerChoice::Auto);
    assert_eq!(UncertaintyLevel::default(), UncertaintyLevel::Default);
}

#[test]
fn uncertainty_levels() {
    assert!(uncertainty_from_level(UncertaintyLevel::Off).is_zero());
    let low = uncertainty_from_level(UncertaintyLevel::Low);
    assert_eq!((f(low.isp_percent), f(low.structural_percent), f(low.thrust_percent)), (0.5, 3.0, 1.0));
    assert_eq!(uncertainty_from_level(UncertaintyLevel::Default), Uncertainty::default());
    let high = uncertainty_from_level(UncertaintyLevel::High);
    assert_eq!((f(high.isp_percent), f(high.structural_percent), f(high.thrust_percent)), (2.0, 8.0, 3.0));
}

#[test]
fn gravity_values() {
    assert_eq!(f(Gravity::Earth.as_mps2()), 9.80665);
    assert_eq!(f(Gravity::Mars.as_mps2()), 3.72076);
    assert_eq!(f(Gravity::Moon.as_mps2()), 1.62);
}

fn optimize_args() -> OptimizeArgs {
    OptimizeArgs {
        payload: s(5000.0),
        target_dv: s(9400.0),
        min_twr: s(1.2),
        min_upper_twr: s(0.5),
        max_stages: 2,
        structural_ratio: s(0.08),
        optimizer: OptimizerChoice::Auto,
        uncertainty: UncertaintyLevel::Default,
        gravity: Gravity::Earth,
    }
}

#[test]
fn optimize_args_are_tested_together() {
    assert!(check_optimize_args(optimize_args()).is_empty());
    let bad = OptimizeArgs {
        payload: s(0.0),
        target_dv: s(-1.0),
        min_twr: s(0.99),
        min_upper_twr: s(0.0),
        max_stages: 0,
        structural_ratio: s(1.0),
        ..optimize_args()
    };
    assert_eq!(
        check_optimize_args(bad),
        vec![
            ArgumentError::Payload,
            ArgumentError::TargetDv,
            ArgumentError::MinTwr,
            ArgumentError::MinUpperTwr,
            ArgumentError::MaxStages,
            ArgumentError::StructuralRatio,
        ]
    );
    let two = OptimizeArgs { target_dv: s(0.0), structural_ratio: s(0.0), ..optimize_args() };
    assert_eq!(check_optimize_args(two), vec![ArgumentError::TargetDv, ArgumentError::StructuralRatio]);
}

fn calculate_args() -> CalculateArgs {
    CalculateArgs {
        isp: Some(s(311.0)),
        engine: None,
        engine_count: 1,
        mass_ratio: Some(s(3.5)),
        wet_mass: None,
        dry_mass: None,
        propellant_mass: None,
        thrust: None,
        structural_ratio: s(0.1),
        output: CalculateOutputFormat::Pretty,
    }
}

#[test]
fn calculate_args_are_tested_together() {
    assert!(check_calculate_args(&calculate_args()).is_empty());
    let zero_ratio = CalculateArgs { structural_ratio: s(0.0), ..calculate_args() };
    assert!(check_calculate_args(&zero_ratio).is_empty());
    let bad = CalculateArgs {
        isp: Some(s(0.0)),
        engine: None,
        engine_count: 0,
        mass_ratio: Some(s(1.0)),
        wet_mass: Some(s(-5.0)),
        dry_mass: Some(s(0.0)),
        propellant_mass: Some(s(-1.0)),
        thrust: Some(s(0.0)),
        structural_ratio: s(-0.1),
        output: CalculateOutputFormat::Compact,
    };
    assert_eq!(
        check_calculate_args(&bad),
        vec![
            ArgumentError::Isp,
            ArgumentError::MassRatio,
            ArgumentError::WetMass,
            ArgumentError::DryMass,
            ArgumentError::WetBelowDry,
            ArgumentError::PropellantMass,
            ArgumentError::Thrust,
            ArgumentError::StructuralRatio,
            ArgumentError::EngineCount,
        ]
    );
    let swapped = CalculateArgs {
        mass_ratio: None,
        wet_mass: Some(s(10.0)),
        dry_mass: Some(s(10.0)),
        ..calculate_args()
    };
    assert_eq!(check_calculate_args(&swapped), vec![ArgumentError::WetBelowDry]);
}

#[test]
fn nozzle_is_drawn_right_aligned() {
    assert_eq!(draw_nozzles(), vec!["    \\    /", "     \\  /", "      \\/"]);
    assert_eq!(align_right("ab", 5), "   ab");
    assert_eq!(align_right("abcdef", 3), "abcdef");
    assert_eq!(align_right("", 2), "  ");
    assert_eq!(align_right("é", 2), " é");
}

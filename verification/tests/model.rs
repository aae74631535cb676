use tsi::engine::{Engine, Propellant};
use tsi::optimizer::{
    AnalyticalOptimizer, ConstraintError, Constraints, OptimizeError, Problem, ProblemError,
    SelectedOptimizer, UnsupportedShape,
};
use tsi::stage::{Rocket, Stage};
use tsi::units::{Force, Isp, Mass, Ratio, Scalar, Velocity};

fn s(x: f64) -> Scalar {
    Scalar::from_bits(x.to_bits())
}

fn f(x: Scalar) -> f64 {
    f64::from_bits(x.to_bits())
}

fn merlin_1d() -> Engine {
    Engine::new(
        "Merlin-1D",
        Force::newtons(s(845_000.0)),
        Force::newtons(s(914_000.0)),
        Isp::seconds(s(282.0)),
        Isp::seconds(s(311.0)),
        Mass::kg(s(470.0)),
        Propellant::LoxRp1,
    )
}

fn get_raptor() -> Engine {
    Engine::new(
        "Raptor-2",
        Force::newtons(s(2_300_000.0)),
        Force::newtons(s(2_450_000.0)),
        Isp::seconds(s(327.0)),
        Isp::seconds(s(350.0)),
        Mass::kg(s(1600.0)),
        Propellant::LoxCh4,
    )
}

fn problem(payload: f64, target: f64, engines: Vec<Engine>) -> Problem {
    Problem::new(Mass::kg(s(payload)), Velocity::mps(s(target)), engines, Constraints::default())
}

#[test]
fn engine_accessors() {
    let e = merlin_1d();
    assert_eq!(e.name, "Merlin-1D");
    assert_eq!(f(e.thrust_sl().as_newtons()), 845_000.0);
    assert_eq!(f(e.thrust_vac().as_newtons()), 914_000.0);
    assert_eq!(f(e.isp_sl().as_seconds()), 282.0);
    assert_eq!(f(e.isp_vac().as_seconds()), 311.0);
    assert_eq!(f(e.dry_mass().as_kg()), 470.0);
    assert_eq!(e.propellant, Propellant::LoxRp1);
}

#[test]
fn upper_stage_detection() {
    let e = merlin_1d();
    assert!(!e.is_upper_stage_only());

    let rl10 = Engine::new(
        "RL-10C",
        Force::newtons(s(0.0)),
        Force::newtons(s(106_000.0)),
        Isp::seconds(s(0.0)),
        Isp::seconds(s(453.0)),
        Mass::kg(s(190.0)),
        Propellant::LoxLh2,
    );
    assert!(rl10.is_upper_stage_only());
}

#[test]
fn upper_stage_detection_takes_either_zero() {
    let no_thrust = Engine::new(
        "A",
        Force::newtons(s(-0.0)),
        Force::newtons(s(1.0)),
        Isp::seconds(s(300.0)),
        Isp::seconds(s(350.0)),
        Mass::kg(s(1.0)),
        Propellant::Solid,
    );
    let no_isp = Engine::new(
        "B",
        Force::newtons(s(1.0)),
        Force::newtons(s(1.0)),
        Isp::seconds(s(0.0)),
        Isp::seconds(s(350.0)),
        Mass::kg(s(1.0)),
        Propellant::Solid,
    );
    assert!(no_thrust.is_upper_stage_only());
    assert!(no_isp.is_upper_stage_only());
}

#[test]
fn engine_duplicate_is_equal() {
    let e = merlin_1d();
    let d = e.duplicate();
    assert_eq!(d.name, e.name);
    assert_eq!(d.thrust_vac, e.thrust_vac);
    assert_eq!(d.propellant, e.propellant);
}

#[test]
fn default_constraints() {
    let c = Constraints::default();
    assert_eq!(f(c.min_liftoff_twr.as_f64()), 1.2);
    assert_eq!(f(c.min_stage_twr.as_f64()), 0.5);
    assert_eq!(c.max_stages, 3);
    assert!((f(c.structural_ratio.as_f64()) - 0.08).abs() < 0.001);
    assert_eq!(f(c.structural_ratio.as_f64()), 0.08);
    assert_eq!(c.max_engines_per_stage, 9);
}

#[test]
fn constraints_validation_passes() {
    let c = Constraints::default();
    assert!(c.validate().is_ok());
}

#[test]
fn constraints_validation_fails_low_liftoff_twr() {
    let c = Constraints::new(
        Ratio::new(s(0.9)),
        Ratio::new(s(0.5)),
        2,
        Ratio::new(s(0.1)),
    );
    assert!(matches!(c.validate(), Err(ConstraintError::InvalidLiftoffTwr(_))));
    assert_eq!(c.validate(), Err(ConstraintError::InvalidLiftoffTwr(Ratio::new(s(0.9)))));
}

#[test]
fn constraints_validation_fails_zero_stages() {
    let c = Constraints::new(Ratio::new(s(1.2)), Ratio::new(s(0.5)), 0, Ratio::new(s(0.1)));
    assert!(matches!(c.validate(), Err(ConstraintError::ZeroStages)));
}

#[test]
fn constraints_validation_fails_stage_twr() {
    let zero = Constraints::new(Ratio::new(s(1.2)), Ratio::new(s(0.0)), 2, Ratio::new(s(0.1)));
    assert_eq!(zero.validate(), Err(ConstraintError::InvalidStageTwr(Ratio::new(s(0.0)))));
    let negative = Constraints::new(Ratio::new(s(1.2)), Ratio::new(s(-0.5)), 2, Ratio::new(s(0.1)));
    assert!(matches!(negative.validate(), Err(ConstraintError::InvalidStageTwr(_))));
}

#[test]
fn constraints_validation_fails_structural_ratio() {
    for bad in [0.0, -0.1, 1.0, 1.5] {
        let c = Constraints::new(Ratio::new(s(1.2)), Ratio::new(s(0.5)), 2, Ratio::new(s(bad)));
        assert_eq!(c.validate(), Err(ConstraintError::InvalidStructuralRatio(Ratio::new(s(bad)))));
    }
    for good in [0.01, 0.5, 0.99] {
        let c = Constraints::new(Ratio::new(s(1.2)), Ratio::new(s(0.5)), 2, Ratio::new(s(good)));
        assert!(c.validate().is_ok());
    }
}

#[test]
fn constraints_validation_reports_first_failure() {
    let c = Constraints::new(Ratio::new(s(0.5)), Ratio::new(s(0.0)), 0, Ratio::new(s(2.0)));
    assert!(matches!(c.validate(), Err(ConstraintError::InvalidLiftoffTwr(_))));
    let c = Constraints::new(Ratio::new(s(1.0)), Ratio::new(s(0.0)), 0, Ratio::new(s(2.0)));
    assert!(matches!(c.validate(), Err(ConstraintError::InvalidStageTwr(_))));
    let c = Constraints::new(Ratio::new(s(1.0)), Ratio::new(s(0.1)), 0, Ratio::new(s(2.0)));
    assert!(matches!(c.validate(), Err(ConstraintError::ZeroStages)));
}

#[test]
fn constraints_with_max_engines() {
    let c = Constraints::default().with_max_engines(2);
    assert_eq!(c.max_engines_per_stage, 2);
    assert_eq!(c.max_stages, 3);
}

#[test]
fn problem_construction() {
    let problem = problem(5000.0, 9400.0, vec![get_raptor()]);
    assert!(problem.is_valid().is_ok());
}

#[test]
fn problem_is_single_engine() {
    let problem = problem(5000.0, 9400.0, vec![get_raptor()]);
    assert!(problem.is_single_engine());
    assert!(problem.single_engine().is_some());
    assert_eq!(problem.single_engine().unwrap().name, "Raptor-2");
}

#[test]
fn problem_with_two_engines_is_not_single() {
    let problem = problem(5000.0, 9400.0, vec![get_raptor(), merlin_1d()]);
    assert!(!problem.is_single_engine());
    assert!(problem.single_engine().is_none());
}

#[test]
fn problem_validation_fails_no_engines() {
    let problem = problem(5000.0, 9400.0, vec![]);
    assert!(matches!(problem.is_valid(), Err(ProblemError::NoEngines)));
}

#[test]
fn problem_validation_fails_invalid_payload() {
    let problem = problem(-100.0, 9400.0, vec![get_raptor()]);
    assert!(matches!(problem.is_valid(), Err(ProblemError::InvalidPayload(_))));
    assert_eq!(problem.is_valid(), Err(ProblemError::InvalidPayload(Mass::kg(s(-100.0)))));
}

#[test]
fn problem_validation_fails_invalid_delta_v() {
    let zero = problem(5000.0, 0.0, vec![get_raptor()]);
    assert_eq!(zero.is_valid(), Err(ProblemError::InvalidDeltaV(Velocity::mps(s(0.0)))));
}

#[test]
fn problem_validation_fails_on_constraints() {
    let constraints = Constraints::new(Ratio::new(s(0.9)), Ratio::new(s(0.5)), 2, Ratio::new(s(0.1)));
    let problem = Problem::new(
        Mass::kg(s(5000.0)),
        Velocity::mps(s(9400.0)),
        vec![get_raptor()],
        constraints,
    );
    assert_eq!(
        problem.is_valid(),
        Err(ProblemError::Constraint(ConstraintError::InvalidLiftoffTwr(Ratio::new(s(0.9)))))
    );
}

#[test]
fn problem_validation_order() {
    let both = problem(0.0, 0.0, vec![]);
    assert!(matches!(both.is_valid(), Err(ProblemError::InvalidPayload(_))));
    let target = problem(1.0, -1.0, vec![]);
    assert!(matches!(target.is_valid(), Err(ProblemError::InvalidDeltaV(_))));
    let engines = problem(1.0, 1.0, vec![]).with_stage_count(0);
    assert!(matches!(engines.is_valid(), Err(ProblemError::NoEngines)));
}

#[test]
fn problem_with_stage_count() {
    let problem = problem(5000.0, 9400.0, vec![get_raptor()]).with_stage_count(2);
    assert_eq!(problem.stage_count, Some(2));
    assert!(problem.is_valid().is_ok());
}

#[test]
fn problem_validation_fails_invalid_stage_count() {
    let problem = problem(5000.0, 9400.0, vec![get_raptor()]).with_stage_count(10);
    assert!(matches!(problem.is_valid(), Err(ProblemError::InvalidStageCount { .. })));
    assert_eq!(
        problem.is_valid(),
        Err(ProblemError::InvalidStageCount { requested: 10, max: 3 })
    );
}

#[test]
fn problem_stage_count_bounds() {
    assert!(problem(1.0, 1.0, vec![get_raptor()]).with_stage_count(1).is_valid().is_ok());
    assert!(problem(1.0, 1.0, vec![get_raptor()]).with_stage_count(3).is_valid().is_ok());
    assert_eq!(
        problem(1.0, 1.0, vec![get_raptor()]).with_stage_count(0).is_valid(),
        Err(ProblemError::InvalidStageCount { requested: 0, max: 3 })
    );
    assert_eq!(
        problem(1.0, 1.0, vec![get_raptor()]).with_stage_count(4).is_valid(),
        Err(ProblemError::InvalidStageCount { requested: 4, max: 3 })
    );
}

#[test]
fn rocket_construction() {
    let stage1 = Stage::new(get_raptor(), 9, Mass::kg(s(1_000_000.0)), Mass::kg(s(50_000.0)));
    let stage2 = Stage::new(get_raptor(), 1, Mass::kg(s(100_000.0)), Mass::kg(s(8_000.0)));
    let rocket = Rocket::new(vec![stage1, stage2], Mass::kg(s(50_000.0)));
    assert_eq!(rocket.stage_count(), 2);
    assert_eq!(f(rocket.payload().as_kg()), 50_000.0);
    assert_eq!(rocket.stages()[0].engine_count(), 9);
    assert_eq!(rocket.stages()[1].engine().name, "Raptor-2");
    assert_eq!(f(rocket.stages()[1].propellant_mass().as_kg()), 100_000.0);
    assert_eq!(f(rocket.stages()[1].structural_mass().as_kg()), 8_000.0);
    let copy = rocket.duplicate();
    assert_eq!(copy.stage_count(), 2);
    assert_eq!(copy.stages()[0].engine_count(), 9);
}

#[test]
fn analytical_optimizer_fails_multi_engine() {
    let problem = problem(5_000.0, 9_000.0, vec![get_raptor(), merlin_1d()]).with_stage_count(2);
    let result = AnalyticalOptimizer::begin(&problem);
    assert!(matches!(result, Err(OptimizeError::Unsupported { .. })));
    assert_eq!(
        AnalyticalOptimizer::supports(&problem),
        Err(OptimizeError::Unsupported { reason: UnsupportedShape::EngineTypes { offered: 2 } })
    );
}

#[test]
fn analytical_optimizer_fails_three_stages() {
    let problem = problem(5_000.0, 9_000.0, vec![get_raptor()]).with_stage_count(3);
    let result = AnalyticalOptimizer::begin(&problem);
    assert!(matches!(result, Err(OptimizeError::Unsupported { .. })));
    assert_eq!(
        AnalyticalOptimizer::supports(&problem),
        Err(OptimizeError::Unsupported { reason: UnsupportedShape::StageCount { requested: Some(3) } })
    );
}

#[test]
fn analytical_optimizer_checks_validity_first() {
    let none = problem(5_000.0, 9_000.0, vec![]).with_stage_count(2);
    assert_eq!(
        AnalyticalOptimizer::supports(&none),
        Err(OptimizeError::InvalidProblem(ProblemError::NoEngines))
    );
    let one = problem(5_000.0, 9_000.0, vec![get_raptor()]).with_stage_count(1);
    assert_eq!(
        AnalyticalOptimizer::supports(&one),
        Err(OptimizeError::Unsupported { reason: UnsupportedShape::StageCount { requested: Some(1) } })
    );
}

#[test]
fn analytical_optimizer_refuses_open_stage_count() {
    let open = problem(5_000.0, 9_000.0, vec![get_raptor()]);
    assert_eq!(
        AnalyticalOptimizer::supports(&open),
        Err(OptimizeError::Unsupported { reason: UnsupportedShape::StageCount { requested: None } })
    );
    assert!(matches!(
        AnalyticalOptimizer::begin(&open),
        Err(OptimizeError::Unsupported { .. })
    ));
    let two = problem(5_000.0, 9_000.0, vec![get_raptor()]).with_stage_count(2);
    assert!(AnalyticalOptimizer::supports(&two).is_ok());
}

#[test]
fn analytical_optimizer_takes_what_selection_gives_it() {
    let engines = [vec![get_raptor()], vec![get_raptor(), merlin_1d()]];
    for offered in engines.iter() {
        for count in [None, Some(1), Some(2), Some(3)] {
            let mut asked = problem(5_000.0, 9_000.0, offered.iter().map(|e| e.duplicate()).collect());
            asked.stage_count = count;
            let selected = SelectedOptimizer::automatic(&asked) == SelectedOptimizer::Analytical;
            assert_eq!(AnalyticalOptimizer::supports(&asked).is_ok(), selected);
        }
    }
}

#[test]
fn automatic_selection_rule() {
    let simple = problem(5_000.0, 9_000.0, vec![get_raptor()]).with_stage_count(2);
    assert_eq!(SelectedOptimizer::automatic(&simple), SelectedOptimizer::Analytical);
    let open = problem(5_000.0, 9_000.0, vec![get_raptor()]);
    assert_eq!(SelectedOptimizer::automatic(&open), SelectedOptimizer::BruteForce);
    let three = problem(5_000.0, 9_000.0, vec![get_raptor()]).with_stage_count(3);
    assert_eq!(SelectedOptimizer::automatic(&three), SelectedOptimizer::BruteForce);
    let multi = problem(5_000.0, 9_000.0, vec![get_raptor(), merlin_1d()]).with_stage_count(2);
    assert_eq!(SelectedOptimizer::automatic(&multi), SelectedOptimizer::BruteForce);
    assert_eq!(SelectedOptimizer::Analytical.name(), "Analytical");
    assert_eq!(SelectedOptimizer::BruteForce.name(), "BruteForce");
}

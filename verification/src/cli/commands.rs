//! The decisions of the commands: which arguments are refused, which solver
//! runs, how uncertain a run is, and which engines a listing shows.

use vstd::prelude::*;

use crate::engine::database::{holds, occurs_in};
use crate::engine::text::{characters, lowercase, to_lowercase, trimmed};
use crate::engine::Engine;
use crate::optimizer::{Problem, SelectedOptimizer, Uncertainty};
use crate::units::Scalar;

use super::args::{CalculateArgs, EnginesArgs, OptimizeArgs, OptimizerChoice, UncertaintyLevel};

verus! {

/// Bits of `0.5`.
pub const HALF_BITS: u64 = 0x3FE0_0000_0000_0000;

/// Bits of `2.0`.
pub const TWO_BITS: u64 = 0x4000_0000_0000_0000;

/// Bits of `3.0`.
pub const THREE_BITS: u64 = 0x4008_0000_0000_0000;

/// Bits of `8.0`.
pub const EIGHT_BITS: u64 = 0x4020_0000_0000_0000;

/// An argument that a command refuses.
#[derive(Debug, Clone, Copy, PartialEq, Eq, Structural)]
pub enum ArgumentError {
    /// `--payload must be positive`
    Payload,
    /// `--target-dv must be positive`
    TargetDv,
    /// `--min-twr must be >= 1.0 for liftoff`
    MinTwr,
    /// `--min-upper-twr must be positive`
    MinUpperTwr,
    /// `--max-stages must be at least 1`
    MaxStages,
    /// `--structural-ratio must be between 0 and 1`
    StructuralRatio,
    /// `--isp must be positive`
    Isp,
    /// `--mass-ratio must be greater than 1.0 (wet > dry)`
    MassRatio,
    /// `--wet-mass must be positive`
    WetMass,
    /// `--dry-mass must be positive`
    DryMass,
    /// `--wet-mass must be greater than --dry-mass`
    WetBelowDry,
    /// `--propellant-mass must be positive`
    PropellantMass,
    /// `--thrust must be positive`
    Thrust,
    /// `--engine-count must be at least 1`
    EngineCount,
}

/// `list` with `error` behind it where `broken` holds.
pub open spec fn noted(list: Seq<ArgumentError>, broken: bool, error: ArgumentError) -> Seq<
    ArgumentError,
> {
    if broken {
        list.push(error)
    } else {
        list
    }
}

/// Whether an optional value is given and not positive.
pub open spec fn given_not_positive(value: Option<Scalar>) -> bool {
    value matches Some(x) && x.spec_le(Scalar::spec_zero())
}

/// Every argument of `optimize` that is out of range, in the order in which
/// they are tested.
pub open spec fn optimize_errors(args: OptimizeArgs) -> Seq<ArgumentError> {
    let zero = Scalar::spec_zero();
    let one = Scalar::spec_one();
    let e0 = noted(Seq::empty(), args.payload.spec_le(zero), ArgumentError::Payload);
    let e1 = noted(e0, args.target_dv.spec_le(zero), ArgumentError::TargetDv);
    let e2 = noted(e1, args.min_twr.spec_lt(one), ArgumentError::MinTwr);
    let e3 = noted(e2, args.min_upper_twr.spec_le(zero), ArgumentError::MinUpperTwr);
    let e4 = noted(e3, args.max_stages == 0, ArgumentError::MaxStages);
    noted(
        e4,
        args.structural_ratio.spec_le(zero) || args.structural_ratio.spec_ge(one),
        ArgumentError::StructuralRatio,
    )
}

/// Every argument of `calculate` that is out of range, in the order in
/// which they are tested.
pub open spec fn calculate_errors(args: &CalculateArgs) -> Seq<ArgumentError> {
    let zero = Scalar::spec_zero();
    let one = Scalar::spec_one();
    let e0 = noted(Seq::empty(), given_not_positive(args.isp), ArgumentError::Isp);
    let e1 = noted(
        e0,
        args.mass_ratio matches Some(x) && x.spec_le(one),
        ArgumentError::MassRatio,
    );
    let e2 = noted(e1, given_not_positive(args.wet_mass), ArgumentError::WetMass);
    let e3 = noted(e2, given_not_positive(args.dry_mass), ArgumentError::DryMass);
    let e4 = noted(
        e3,
        args.wet_mass is Some && args.dry_mass is Some && args.wet_mass->0.spec_le(
            args.dry_mass->0,
        ),
        ArgumentError::WetBelowDry,
    );
    let e5 = noted(e4, given_not_positive(args.propellant_mass), ArgumentError::PropellantMass);
    let e6 = noted(e5, given_not_positive(args.thrust), ArgumentError::Thrust);
    let e7 = noted(
        e6,
        args.structural_ratio.spec_lt(zero) || args.structural_ratio.spec_ge(one),
        ArgumentError::StructuralRatio,
    );
    noted(e7, args.engine_count == 0, ArgumentError::EngineCount)
}

/// The uncertainty of a level: none; 0.5 % on specific impulse, 3 % on the
/// structural ratio and 1 % on thrust; the default; or 2 %, 8 % and 3 %.
pub open spec fn level_uncertainty(level: UncertaintyLevel) -> Uncertainty {
    match level {
        UncertaintyLevel::Off => Uncertainty {
            isp_percent: Scalar::spec_zero(),
            thrust_percent: Scalar::spec_zero(),
            structural_percent: Scalar::spec_zero(),
        },
        UncertaintyLevel::Low => Uncertainty {
            isp_percent: Scalar { bits: HALF_BITS },
            thrust_percent: Scalar::spec_one(),
            structural_percent: Scalar { bits: THREE_BITS },
        },
        UncertaintyLevel::Default => Uncertainty {
            isp_percent: Scalar { bits: crate::optimizer::uncertainty::DEFAULT_ISP_PERCENT_BITS },
            thrust_percent: Scalar {
                bits: crate::optimizer::uncertainty::DEFAULT_THRUST_PERCENT_BITS,
            },
            structural_percent: Scalar {
                bits: crate::optimizer::uncertainty::DEFAULT_STRUCTURAL_PERCENT_BITS,
            },
        },
        UncertaintyLevel::High => Uncertainty {
            isp_percent: Scalar { bits: TWO_BITS },
            thrust_percent: Scalar { bits: THREE_BITS },
            structural_percent: Scalar { bits: EIGHT_BITS },
        },
    }
}

/// Whether a listing with these filters shows the engine: its propellant
/// answers the propellant filter, and its name holds the name filter, case
/// aside.
pub open spec fn shown(engine: &Engine, args: &EnginesArgs) -> bool {
    &&& args.propellant matches Some(filter) ==> engine.propellant.accepts(
        trimmed(lowercase(filter@)),
    )
    &&& args.name matches Some(filter) ==> occurs_in(lowercase(filter@), lowercase(engine.name@))
}

fn note(list: &mut Vec<ArgumentError>, broken: bool, error: ArgumentError)
    ensures
        final(list)@ == noted(old(list)@, broken, error),
{
    if broken {
        list.push(error);
    }
}

fn not_positive(value: Option<Scalar>) -> (r: bool)
    ensures
        r == given_not_positive(value),
{
    match value {
        Some(x) => x.le(Scalar::zero()),
        None => false,
    }
}

/// Tests the arguments of `optimize` and lists every one that is out of
/// range: an empty list lets the command run.
pub fn check_optimize_args(args: OptimizeArgs) -> (r: Vec<ArgumentError>)
    ensures
        r@ == optimize_errors(args),
{
    let zero: Scalar = Scalar::zero();
    let one: Scalar = Scalar::one();
    let mut errors: Vec<ArgumentError> = Vec::new();
    note(&mut errors, args.payload.le(zero), ArgumentError::Payload);
    note(&mut errors, args.target_dv.le(zero), ArgumentError::TargetDv);
    note(&mut errors, args.min_twr.lt(one), ArgumentError::MinTwr);
    note(&mut errors, args.min_upper_twr.le(zero), ArgumentError::MinUpperTwr);
    note(&mut errors, args.max_stages == 0, ArgumentError::MaxStages);
    note(
        &mut errors,
        args.structural_ratio.le(zero) || args.structural_ratio.ge(one),
        ArgumentError::StructuralRatio,
    );
    errors
}

/// Tests the arguments of `calculate` and lists every one that is out of
/// range: an empty list lets the command run.
pub fn check_calculate_args(args: &CalculateArgs) -> (r: Vec<ArgumentError>)
    ensures
        r@ == calculate_errors(args),
{
    let zero: Scalar = Scalar::zero();
    let one: Scalar = Scalar::one();
    let mut errors: Vec<ArgumentError> = Vec::new();
    note(&mut errors, not_positive(args.isp), ArgumentError::Isp);
    let ratio_low: bool = match args.mass_ratio {
        Some(x) => x.le(one),
        None => false,
    };
    note(&mut errors, ratio_low, ArgumentError::MassRatio);
    note(&mut errors, not_positive(args.wet_mass), ArgumentError::WetMass);
    note(&mut errors, not_positive(args.dry_mass), ArgumentError::DryMass);
    let wet_low: bool = match (args.wet_mass, args.dry_mass) {
        (Some(wet), Some(dry)) => wet.le(dry),
        _ => false,
    };
    note(&mut errors, wet_low, ArgumentError::WetBelowDry);
    note(&mut errors, not_positive(args.propellant_mass), ArgumentError::PropellantMass);
    note(&mut errors, not_positive(args.thrust), ArgumentError::Thrust);
    note(
        &mut errors,
        args.structural_ratio.lt(zero) || args.structural_ratio.ge(one),
        ArgumentError::StructuralRatio,
    );
    note(&mut errors, args.engine_count == 0, ArgumentError::EngineCount);
    errors
}

/// The uncertainty that a level stands for.
pub fn uncertainty_from_level(level: UncertaintyLevel) -> (r: Uncertainty)
    ensures
        r == level_uncertainty(level),
{
    match level {
        UncertaintyLevel::Off => Uncertainty::none(),
        UncertaintyLevel::Low => Uncertainty::new(
            Scalar::from_bits(HALF_BITS),
            Scalar::from_bits(THREE_BITS),
            Scalar::one(),
        ),
        UncertaintyLevel::Default => Uncertainty::default(),
        UncertaintyLevel::High => Uncertainty::new(
            Scalar::from_bits(TWO_BITS),
            Scalar::from_bits(EIGHT_BITS),
            Scalar::from_bits(THREE_BITS),
        ),
    }
}

/// The solver that runs: the one the user names, or, left to choose, the
/// closed-form solver for one engine type and a stage count fixed at 2 and
/// the grid search otherwise.
pub fn select_optimizer(choice: OptimizerChoice, problem: &Problem) -> (r: SelectedOptimizer)
    ensures
        r == (match choice {
            OptimizerChoice::Analytical => SelectedOptimizer::Analytical,
            OptimizerChoice::BruteForce => SelectedOptimizer::BruteForce,
            OptimizerChoice::Auto => SelectedOptimizer::spec_automatic(problem),
        }),
{
    match choice {
        OptimizerChoice::Analytical => SelectedOptimizer::Analytical,
        OptimizerChoice::BruteForce => SelectedOptimizer::BruteForce,
        OptimizerChoice::Auto => SelectedOptimizer::automatic(problem),
    }
}

/// Whether a listing with these filters shows the engine.
pub fn engine_shown(engine: &Engine, args: &EnginesArgs) -> (r: bool)
    ensures
        r == shown(engine, args),
{
    match &args.propellant {
        Some(filter) => {
            if !engine.propellant.matches(filter.as_str()) {
                return false;
            }
        },
        None => {},
    }
    match &args.name {
        Some(filter) => {
            let wanted: String = to_lowercase(filter.as_str());
            let name: String = to_lowercase(engine.name.as_str());
            let pattern: Vec<char> = characters(wanted.as_str());
            let text: Vec<char> = characters(name.as_str());
            holds(&text, &pattern)
        },
        None => true,
    }
}

} // verus!

//! The arguments of the three commands, as plain values.

use vstd::prelude::*;

use crate::units::Scalar;

verus! {

/// Bits of `9.80665`, standard gravity on Earth in m/s².
pub const EARTH_GRAVITY_BITS: u64 = 0x4023_9D01_3A92_A305;

/// Bits of `3.72076`, surface gravity on Mars in m/s².
pub const MARS_GRAVITY_BITS: u64 = 0x400D_C41D_D1A2_1EA3;

/// Bits of `1.62`, surface gravity on the Moon in m/s².
pub const MOON_GRAVITY_BITS: u64 = 0x3FF9_EB85_1EB8_51EC;

/// How `calculate` prints.
#[derive(Debug, Clone, Copy, PartialEq, Eq, Structural)]
pub enum CalculateOutputFormat {
    Pretty,
    Compact,
}

/// How `engines` prints.
#[derive(Debug, Clone, Copy, PartialEq, Eq, Structural)]
pub enum OutputFormat {
    Table,
    Json,
}

/// How `optimize` prints.
#[derive(Debug, Clone, Copy, PartialEq, Eq, Structural)]
pub enum OptimizeOutputFormat {
    Pretty,
    Json,
}

/// How uncertain the parameters of a Monte Carlo run are.
#[derive(Debug, Clone, Copy, PartialEq, Eq, Structural)]
pub enum UncertaintyLevel {
    Off,
    Low,
    Default,
    High,
}

/// Which solver the user asks for.
#[derive(Debug, Clone, Copy, PartialEq, Eq, Structural)]
pub enum OptimizerChoice {
    Auto,
    Analytical,
    BruteForce,
}

/// The body whose gravity weighs the rocket.
#[derive(Debug, Clone, Copy, PartialEq, Eq, Structural)]
pub enum Gravity {
    Earth,
    Mars,
    Moon,
}

/// The arguments of `calculate`.
#[derive(Debug, Clone)]
pub struct CalculateArgs {
    pub isp: Option<Scalar>,
    pub engine: Option<String>,
    pub engine_count: u32,
    pub mass_ratio: Option<Scalar>,
    pub wet_mass: Option<Scalar>,
    pub dry_mass: Option<Scalar>,
    pub propellant_mass: Option<Scalar>,
    pub thrust: Option<Scalar>,
    pub structural_ratio: Scalar,
    pub output: CalculateOutputFormat,
}

/// The arguments of `engines`.
#[derive(Debug, Clone)]
pub struct EnginesArgs {
    pub output: OutputFormat,
    pub propellant: Option<String>,
    pub name: Option<String>,
    pub verbose: bool,
}

/// The arguments of `optimize` that are tested before anything runs, and
/// the solver choice.
#[derive(Debug, Clone, Copy, PartialEq, Eq, Structural)]
pub struct OptimizeArgs {
    pub payload: Scalar,
    pub target_dv: Scalar,
    pub min_twr: Scalar,
    pub min_upper_twr: Scalar,
    pub max_stages: u32,
    pub structural_ratio: Scalar,
    pub optimizer: OptimizerChoice,
    pub uncertainty: UncertaintyLevel,
    pub gravity: Gravity,
}

impl Default for UncertaintyLevel {
    fn default() -> (r: UncertaintyLevel)
        ensures
            r == UncertaintyLevel::Default,
    {
        UncertaintyLevel::Default
    }
}

impl Default for OptimizerChoice {
    fn default() -> (r: OptimizerChoice)
        ensures
            r == OptimizerChoice::Auto,
    {
        OptimizerChoice::Auto
    }
}

impl Gravity {
    /// The gravitational acceleration in m/s².
    pub open spec fn spec_mps2(self) -> Scalar {
        match self {
            Gravity::Earth => Scalar { bits: EARTH_GRAVITY_BITS },
            Gravity::Mars => Scalar { bits: MARS_GRAVITY_BITS },
            Gravity::Moon => Scalar { bits: MOON_GRAVITY_BITS },
        }
    }

    /// The gravitational acceleration in m/s²: 9.80665 on Earth, 3.72076
    /// on Mars, 1.62 on the Moon.
    pub fn as_mps2(&self) -> (r: Scalar)
        ensures
            r == self.spec_mps2(),
    {
        match self {
            Gravity::Earth => Scalar::from_bits(EARTH_GRAVITY_BITS),
            Gravity::Mars => Scalar::from_bits(MARS_GRAVITY_BITS),
            Gravity::Moon => Scalar::from_bits(MOON_GRAVITY_BITS),
        }
    }
}

} // verus!

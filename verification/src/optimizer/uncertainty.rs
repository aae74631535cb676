//! Parameter uncertainty and what becomes of a perturbed parameter.
//!
//! A parameter with a positive uncertainty is multiplied by a factor drawn
//! around 1; one with zero uncertainty stays as it is, and nothing is
//! drawn for it. The caller draws and multiplies; whether to draw, and what
//! to keep of the product, is decided here.

use vstd::prelude::*;

use crate::engine::Engine;
use crate::units::{Force, Isp, Mass, Ratio, Scalar};

verus! {

/// Bits of `1.0`, the default uncertainty of specific impulse in percent.
pub const DEFAULT_ISP_PERCENT_BITS: u64 = 0x3FF0_0000_0000_0000;

/// Bits of `2.0`, the default uncertainty of thrust in percent.
pub const DEFAULT_THRUST_PERCENT_BITS: u64 = 0x4000_0000_0000_0000;

/// Bits of `5.0`, the default uncertainty of the structural ratio in
/// percent.
pub const DEFAULT_STRUCTURAL_PERCENT_BITS: u64 = 0x4014_0000_0000_0000;

/// Bits of `0.01`, the least structural ratio after a perturbation.
pub const MIN_STRUCTURAL_RATIO_BITS: u64 = 0x3F84_7AE1_47AE_147B;

/// Bits of `0.5`, the greatest structural ratio after a perturbation.
pub const MAX_STRUCTURAL_RATIO_BITS: u64 = 0x3FE0_0000_0000_0000;

/// One standard deviation of each uncertain parameter, in percent of its
/// nominal value.
#[derive(Debug, Clone, Copy, PartialEq, Eq, Structural)]
pub struct Uncertainty {
    pub isp_percent: Scalar,
    pub thrust_percent: Scalar,
    pub structural_percent: Scalar,
}

/// Perturbs parameters by an [`Uncertainty`].
#[derive(Debug, Clone, Copy, PartialEq, Eq, Structural)]
pub struct ParameterSampler {
    pub uncertainty: Uncertainty,
}

/// Whether a percentage is zero, so that its parameter is deterministic.
pub open spec fn certain(percent: Scalar) -> bool {
    percent.spec_equals(Scalar::spec_zero())
}

/// A value held to the interval from `low` to `high`: a value below `low`
/// becomes `low`, one above `high` becomes `high`, every other stays, a
/// NaN too.
pub open spec fn clamped(value: Scalar, low: Scalar, high: Scalar) -> Scalar {
    if value.spec_lt(low) {
        low
    } else if value.spec_gt(high) {
        high
    } else {
        value
    }
}

/// The least structural ratio after a perturbation.
pub open spec fn min_structural_ratio() -> Scalar {
    Scalar { bits: MIN_STRUCTURAL_RATIO_BITS }
}

/// The greatest structural ratio after a perturbation.
pub open spec fn max_structural_ratio() -> Scalar {
    Scalar { bits: MAX_STRUCTURAL_RATIO_BITS }
}

impl Uncertainty {
    /// Whether nothing is uncertain.
    pub open spec fn zero(&self) -> bool {
        certain(self.isp_percent) && certain(self.thrust_percent) && certain(
            self.structural_percent,
        )
    }

    /// An uncertainty from its three percentages.
    pub fn new(isp_percent: Scalar, structural_percent: Scalar, thrust_percent: Scalar) -> (r:
        Uncertainty)
        ensures
            r == (Uncertainty { isp_percent, thrust_percent, structural_percent }),
    {
        Uncertainty { isp_percent, thrust_percent, structural_percent }
    }

    /// No uncertainty: every parameter is deterministic.
    pub fn none() -> (r: Uncertainty)
        ensures
            r == (Uncertainty {
                isp_percent: Scalar::spec_zero(),
                thrust_percent: Scalar::spec_zero(),
                structural_percent: Scalar::spec_zero(),
            }),
            r.zero(),
    {
        Uncertainty {
            isp_percent: Scalar::zero(),
            thrust_percent: Scalar::zero(),
            structural_percent: Scalar::zero(),
        }
    }

    /// Whether nothing is uncertain: all three percentages are zero.
    pub fn is_zero(&self) -> (r: bool)
        ensures
            r == self.zero(),
    {
        self.isp_percent.equals(Scalar::zero()) && self.thrust_percent.equals(Scalar::zero())
            && self.structural_percent.equals(Scalar::zero())
    }
}

impl Default for Uncertainty {
    /// 1 % on specific impulse, 2 % on thrust, 5 % on the structural ratio.
    fn default() -> (r: Uncertainty)
        ensures
            r == (Uncertainty {
                isp_percent: Scalar { bits: DEFAULT_ISP_PERCENT_BITS },
                thrust_percent: Scalar { bits: DEFAULT_THRUST_PERCENT_BITS },
                structural_percent: Scalar { bits: DEFAULT_STRUCTURAL_PERCENT_BITS },
            }),
    {
        Uncertainty {
            isp_percent: Scalar::from_bits(DEFAULT_ISP_PERCENT_BITS),
            thrust_percent: Scalar::from_bits(DEFAULT_THRUST_PERCENT_BITS),
            structural_percent: Scalar::from_bits(DEFAULT_STRUCTURAL_PERCENT_BITS),
        }
    }
}

/// Holds a value to the interval from `low` to `high`.
pub fn clamp(value: Scalar, low: Scalar, high: Scalar) -> (r: Scalar)
    ensures
        r == clamped(value, low, high),
{
    if value.lt(low) {
        low
    } else if value.gt(high) {
        high
    } else {
        value
    }
}

impl ParameterSampler {
    /// A sampler for the given uncertainty.
    pub fn new(uncertainty: Uncertainty) -> (r: ParameterSampler)
        ensures
            r.uncertainty == uncertainty,
    {
        ParameterSampler { uncertainty }
    }

    /// The uncertainty.
    pub fn uncertainty(&self) -> (r: &Uncertainty)
        ensures
            *r == self.uncertainty,
    {
        &self.uncertainty
    }

    /// Whether a parameter with this percentage needs a factor drawn.
    pub fn draws(percent: Scalar) -> (r: bool)
        ensures
            r == !certain(percent),
    {
        !percent.equals(Scalar::zero())
    }

    /// The specific impulse to use: `nominal` where specific impulse is
    /// certain, else `scaled`, the nominal value times the drawn factor.
    pub fn perturb_isp(&self, nominal: Isp, scaled: Isp) -> (r: Isp)
        ensures
            r == (if certain(self.uncertainty.isp_percent) {
                nominal
            } else {
                scaled
            }),
    {
        if Self::draws(self.uncertainty.isp_percent) {
            scaled
        } else {
            nominal
        }
    }

    /// The thrust to use: `nominal` where thrust is certain, else `scaled`,
    /// the nominal value times the drawn factor.
    pub fn perturb_thrust(&self, nominal: Force, scaled: Force) -> (r: Force)
        ensures
            r == (if certain(self.uncertainty.thrust_percent) {
                nominal
            } else {
                scaled
            }),
    {
        if Self::draws(self.uncertainty.thrust_percent) {
            scaled
        } else {
            nominal
        }
    }

    /// The structural ratio to use: `nominal` where the ratio is certain,
    /// else `scaled`, the nominal value times the drawn factor, held to the
    /// interval from 0.01 to 0.5.
    pub fn perturb_structural_ratio(&self, nominal: Ratio, scaled: Ratio) -> (r: Ratio)
        ensures
            r == (if certain(self.uncertainty.structural_percent) {
                nominal
            } else {
                Ratio {
                    value: clamped(scaled.value, min_structural_ratio(), max_structural_ratio()),
                }
            }),
    {
        if Self::draws(self.uncertainty.structural_percent) {
            Ratio::new(
                clamp(
                    scaled.value,
                    Scalar::from_bits(MIN_STRUCTURAL_RATIO_BITS),
                    Scalar::from_bits(MAX_STRUCTURAL_RATIO_BITS),
                ),
            )
        } else {
            nominal
        }
    }

    /// The mass to use under an uncertainty of `percent`: `nominal` where
    /// the percentage is zero, else `scaled`, the nominal value times the
    /// drawn factor.
    pub fn perturb_mass(&self, nominal: Mass, percent: Scalar, scaled: Mass) -> (r: Mass)
        ensures
            r == (if certain(percent) {
                nominal
            } else {
                scaled
            }),
    {
        if Self::draws(percent) {
            scaled
        } else {
            nominal
        }
    }

    /// The engine to use: name, dry mass and propellant of `engine`, and
    /// each thrust and specific impulse perturbed on its own, from the
    /// matching value of `scaled`.
    pub fn perturb_engine(&self, engine: &Engine, scaled: &Engine) -> (r: Engine)
        ensures
            r.name == engine.name,
            r.dry_mass == engine.dry_mass,
            r.propellant == engine.propellant,
            certain(self.uncertainty.thrust_percent) ==> r.thrust_sl == engine.thrust_sl
                && r.thrust_vac == engine.thrust_vac,
            !certain(self.uncertainty.thrust_percent) ==> r.thrust_sl == scaled.thrust_sl
                && r.thrust_vac == scaled.thrust_vac,
            certain(self.uncertainty.isp_percent) ==> r.isp_sl == engine.isp_sl && r.isp_vac
                == engine.isp_vac,
            !certain(self.uncertainty.isp_percent) ==> r.isp_sl == scaled.isp_sl && r.isp_vac
                == scaled.isp_vac,
    {
        Engine {
            name: engine.name.clone(),
            thrust_sl: self.perturb_thrust(engine.thrust_sl, scaled.thrust_sl),
            thrust_vac: self.perturb_thrust(engine.thrust_vac, scaled.thrust_vac),
            isp_sl: self.perturb_isp(engine.isp_sl, scaled.isp_sl),
            isp_vac: self.perturb_isp(engine.isp_vac, scaled.isp_vac),
            dry_mass: engine.dry_mass,
            propellant: engine.propellant,
        }
    }
}

/// A perturbed structural ratio that is a number lies between 0.01 and 0.5.
pub proof fn lemma_structural_ratio_bounds(value: Scalar)
    requires
        !value.nan(),
    ensures
        clamped(value, min_structural_ratio(), max_structural_ratio()).spec_ge(
            min_structural_ratio(),
        ),
        clamped(value, min_structural_ratio(), max_structural_ratio()).spec_le(
            max_structural_ratio(),
        ),
{
}

/// With no uncertainty a sampler returns every nominal value unchanged.
pub proof fn lemma_no_uncertainty_keeps_nominal()
    ensures
        certain(Scalar::spec_zero()),
        (Uncertainty {
            isp_percent: Scalar::spec_zero(),
            thrust_percent: Scalar::spec_zero(),
            structural_percent: Scalar::spec_zero(),
        }).zero(),
{
}

} // verus!

//! Engine performance records.

use vstd::prelude::*;
use vstd::string::*;

use crate::units::{Force, Isp, Mass, Scalar};

use super::propellant::Propellant;

verus! {

/// A rocket engine: its name, its thrust and specific impulse at sea level
/// and in vacuum, its dry mass, and what it burns.
///
/// An engine whose sea-level thrust or sea-level specific impulse is zero
/// works in vacuum only.
#[derive(Debug, Clone)]
pub struct Engine {
    pub name: String,
    pub thrust_sl: Force,
    pub thrust_vac: Force,
    pub isp_sl: Isp,
    pub isp_vac: Isp,
    pub dry_mass: Mass,
    pub propellant: Propellant,
}

impl Engine {
    /// Whether the record marks a vacuum-only engine.
    pub open spec fn vacuum_only(&self) -> bool {
        self.thrust_sl.value.spec_equals(Scalar::spec_zero()) || self.isp_sl.value.spec_equals(
            Scalar::spec_zero(),
        )
    }

    /// Makes an engine record. For a vacuum-only engine the sea-level
    /// values are zero.
    pub fn new(
        name: &str,
        thrust_sl: Force,
        thrust_vac: Force,
        isp_sl: Isp,
        isp_vac: Isp,
        dry_mass: Mass,
        propellant: Propellant,
    ) -> (r: Engine)
        ensures
            r.name@ == name@,
            r.thrust_sl == thrust_sl,
            r.thrust_vac == thrust_vac,
            r.isp_sl == isp_sl,
            r.isp_vac == isp_vac,
            r.dry_mass == dry_mass,
            r.propellant == propellant,
    {
        Engine {
            name: String::from_str(name),
            thrust_sl,
            thrust_vac,
            isp_sl,
            isp_vac,
            dry_mass,
            propellant,
        }
    }

    /// A copy of the record.
    pub fn duplicate(&self) -> (r: Engine)
        ensures
            r == *self,
    {
        Engine {
            name: self.name.clone(),
            thrust_sl: self.thrust_sl,
            thrust_vac: self.thrust_vac,
            isp_sl: self.isp_sl,
            isp_vac: self.isp_vac,
            dry_mass: self.dry_mass,
            propellant: self.propellant,
        }
    }

    /// Thrust at sea level; zero for a vacuum-only engine.
    pub fn thrust_sl(&self) -> (r: Force)
        ensures
            r == self.thrust_sl,
    {
        self.thrust_sl
    }

    /// Thrust in vacuum.
    pub fn thrust_vac(&self) -> (r: Force)
        ensures
            r == self.thrust_vac,
    {
        self.thrust_vac
    }

    /// Specific impulse at sea level; zero for a vacuum-only engine.
    pub fn isp_sl(&self) -> (r: Isp)
        ensures
            r == self.isp_sl,
    {
        self.isp_sl
    }

    /// Specific impulse in vacuum.
    pub fn isp_vac(&self) -> (r: Isp)
        ensures
            r == self.isp_vac,
    {
        self.isp_vac
    }

    /// Mass of one engine without propellant.
    pub fn dry_mass(&self) -> (r: Mass)
        ensures
            r == self.dry_mass,
    {
        self.dry_mass
    }

    /// Whether the engine cannot fire on a stage exposed to atmosphere.
    pub fn is_upper_stage_only(&self) -> (r: bool)
        ensures
            r == self.vacuum_only(),
    {
        self.thrust_sl.value.equals(Scalar::zero()) || self.isp_sl.value.equals(Scalar::zero())
    }
}

} // verus!

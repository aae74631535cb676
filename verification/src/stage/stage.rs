//! One propulsion unit of a rocket.

use vstd::prelude::*;

use crate::engine::Engine;
use crate::units::Mass;

verus! {

/// A stage: engines of one type, their number, the propellant they burn,
/// and the structure that holds it.
#[derive(Debug, Clone)]
pub struct Stage {
    pub engine: Engine,
    pub engine_count: u32,
    pub propellant_mass: Mass,
    pub structural_mass: Mass,
}

impl Stage {
    /// Makes a stage from its parts.
    pub fn new(engine: Engine, engine_count: u32, propellant_mass: Mass, structural_mass: Mass) -> (r:
        Stage)
        ensures
            r.engine == engine,
            r.engine_count == engine_count,
            r.propellant_mass == propellant_mass,
            r.structural_mass == structural_mass,
    {
        Stage { engine, engine_count, propellant_mass, structural_mass }
    }

    /// A copy of the stage.
    pub fn duplicate(&self) -> (r: Stage)
        ensures
            r == *self,
    {
        Stage {
            engine: self.engine.duplicate(),
            engine_count: self.engine_count,
            propellant_mass: self.propellant_mass,
            structural_mass: self.structural_mass,
        }
    }

    /// The engine type.
    pub fn engine(&self) -> (r: &Engine)
        ensures
            *r == self.engine,
    {
        &self.engine
    }

    /// How many engines the stage carries.
    pub fn engine_count(&self) -> (r: u32)
        ensures
            r == self.engine_count,
    {
        self.engine_count
    }

    /// Mass of the propellant.
    pub fn propellant_mass(&self) -> (r: Mass)
        ensures
            r == self.propellant_mass,
    {
        self.propellant_mass
    }

    /// Mass of tanks and structure, without the engines.
    pub fn structural_mass(&self) -> (r: Mass)
        ensures
            r == self.structural_mass,
    {
        self.structural_mass
    }
}

} // verus!

//! Engines, their propellants, and the catalog that names them.

pub mod database;
pub mod engine;
pub mod propellant;
pub mod text;

pub use database::EngineDatabase;
pub use engine::Engine;
pub use propellant::Propellant;

//! Stages, rockets, and what a rocket was found to achieve.

pub mod rocket;
pub mod stage;

pub use rocket::{Performance, Rocket, TwrError};
pub use stage::Stage;

//! Physical quantities as distinct types over [`Scalar`].
//!
//! A quantity of one kind cannot stand where another is expected. Each type
//! holds one scalar in its SI unit.

pub mod fmt;
pub mod force;
pub mod isp;
pub mod mass;
pub mod order;
pub mod ratio;
pub mod scalar;
pub mod sorting;
pub mod time;
pub mod velocity;

pub use fmt::format_thousands;
pub use force::Force;
pub use isp::Isp;
pub use mass::Mass;
pub use ratio::Ratio;
pub use scalar::Scalar;
pub use time::Time;
pub use velocity::Velocity;

//! Text layout of results.

pub mod diagram;
pub mod terminal;

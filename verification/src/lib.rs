//! Verified core of the Maelstrom position-based-fluids library.

pub mod config;
pub mod error;
pub mod fluid;
pub mod keys;
pub mod scene;
pub mod text;

pub use error::NumericalError;

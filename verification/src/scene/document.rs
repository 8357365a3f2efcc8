//! # Scene document vocabulary
//!
//! The fixed choices a scene document makes, and the check on its identifying
//! text.

use vstd::prelude::*;

use crate::config::{ConfigError, text_check, validate_text};

verus! {

/// Chooses the numerical model that a scene is resolved against.
#[derive(Clone, Copy, Debug, PartialEq, Eq, Structural)]
pub enum ConfigurationSource {
    /// Start from the simulator's built-in numerical defaults.
    BuiltInDefaults,
    /// Start from the configuration document named by the selection's path.
    File,
}

/// Defines which endpoint a lattice construction includes.
#[derive(Clone, Copy, Debug, PartialEq, Eq, Structural)]
pub enum LatticeEndpointRule {
    /// The origin is included, and `origin + count * spacing` is excluded.
    CountedHalfOpen,
}

/// Defines the stable order used to assign lattice identities and positions.
#[derive(Clone, Copy, Debug, PartialEq, Eq, Structural)]
pub enum LatticeOrder {
    /// `x` is outermost, then `y`, and `z` varies fastest.
    XThenYThenZ,
}

/// States whether building the scene may introduce random values.
#[derive(Clone, Copy, Debug, PartialEq, Eq, Structural)]
pub enum RandomnessPolicy {
    /// No random generation is performed.
    NoRandomness,
}

/// ### Checks one identifying text field of a scene
///
/// ### Errors
///
/// Returns [`ConfigError::InvalidField`] naming `field` when `value` is blank,
/// and otherwise when it contains a control character.
pub fn validate_scene_text(field: &'static str, value: &str) -> (r: Result<(), ConfigError>)
    ensures
        text_check(field, value@, r),
{
    validate_text(field, value)
}

} // verus!

//! # Numerical errors
//!
//! Errors returned when an input is outside its valid range, or a calculation
//! produces a value that the simulator cannot use safely.
//!
//! Scalar values carried by an error are stored as the IEEE-754 bit pattern of
//! the binary32 value (`f32::to_bits`), so that the error stays an exact,
//! comparable record of the offending value.

use vstd::prelude::*;

verus! {

/// ### Error returned by a checked numerical operation
///
/// Input errors name the value that should be corrected. Result errors identify
/// the calculation that overflowed or otherwise became non-finite.
#[derive(Clone, Debug, PartialEq)]
pub enum NumericalError {
    /// A scalar input is NaN or infinite (`value` holds its binary32 bits).
    NonFiniteScalar { quantity: &'static str, value: u32 },
    /// At least one component of a vector input is NaN or infinite.
    NonFiniteVector { quantity: &'static str },
    /// A value that must be greater than zero is zero or negative.
    NonPositiveScalar { quantity: &'static str, value: u32 },
    /// A value that may be zero is negative.
    NegativeScalar { quantity: &'static str, value: u32 },
    /// A calculation produced NaN or infinity from otherwise finite inputs.
    NonFiniteResult { quantity: &'static str },
    /// The artificial-pressure sample point is not strictly inside kernel support.
    InvalidReferenceSeparation { separation: u32, support_radius: u32 },
    /// A plane normal has no direction.
    ZeroPlaneNormal,
    /// A plane normal is outside the permitted distance from unit length.
    NonUnitPlaneNormal { length_squared: u32, tolerance: u32 },
    /// The tolerance used to check a plane normal is negative or non-finite.
    InvalidUnitTolerance { tolerance: u32 },
    /// There is not exactly one interaction row for each particle.
    InteractionSetCount { expected: usize, actual: usize },
    /// An interaction row refers to a particle that does not exist.
    InteractionIndexOutOfBounds { particle: usize, neighbour: usize, particle_count: usize },
    /// A particle appears in its own interaction row.
    SelfInteraction { particle: usize },
    /// Interaction indices are duplicated or are not in ascending order.
    InteractionOrder { particle: usize, previous: usize, next: usize },
    /// A requested particle does not exist in the supplied snapshot.
    ParticleIndexOutOfBounds { particle: usize, particle_count: usize },
    /// Parallel slices that describe the same particles have different lengths.
    LengthMismatch { quantity: &'static str, expected: usize, actual: usize },
    /// A lattice support ratio would require an impractical enumeration.
    SupportRatioTooLarge { ratio: u32, maximum: u32 },
}

} // verus!

//! # Resolved scene records
//!
//! The scene error type, the scene size limits, and the rules that connect a
//! scene to its base configuration.

use vstd::prelude::*;

use super::document::ConfigurationSource;
use crate::NumericalError;
use crate::config::ConfigError;
use crate::text::{is_blank, is_blank_text};

verus! {

/// Maximum number of planes in one scene.
pub const MAX_PLANES: usize = 32;

/// Maximum explicit particle count before pairwise overlap validation is impractical.
pub const MAX_EXPLICIT_PARTICLES: usize = 4096;

/// Maximum deterministic lattice particle count accepted by scene construction.
pub const MAX_LATTICE_PARTICLES: usize = 1_000_000;

/// Scene loading, construction or validation failure.
///
/// Scalar values are carried as the IEEE-754 bit patterns of their binary32 values.
#[derive(Debug)]
pub enum SceneError {
    /// Resolving the selected numerical configuration failed.
    Configuration(ConfigError),
    /// A numerical operation required while resolving the scene failed.
    Numerical(NumericalError),
    /// A scene or configuration document could not be read.
    Io {
        /// Kind of document involved in the operation.
        document: &'static str,
        /// Filesystem operation that failed.
        operation: &'static str,
        /// Operating-system error kind.
        kind: std::io::ErrorKind,
    },
    /// The selected configuration source and supplied values are inconsistent.
    InvalidConfigurationSelection {
        /// Explanation of the inconsistency.
        reason: String,
    },
    /// A configuration file was selected but not supplied for resolution.
    MissingConfigurationDocument,
    /// The scene contains more planes than the supported limit.
    TooManyPlanes {
        /// Largest supported plane count.
        maximum: usize,
        /// Plane count requested by the scene.
        actual: usize,
    },
    /// Two planes define mutually incompatible permitted half-spaces.
    ContradictoryPlanes {
        /// Index of the first conflicting plane.
        first: usize,
        /// Index of the second conflicting plane.
        second: usize,
    },
    /// The scene planes have no point in common within their permitted half-spaces.
    NoFeasiblePlaneIntersection,
    /// A lattice axis has no generated positions.
    EmptyLatticeAxis {
        /// Name of the empty lattice axis.
        axis: &'static str,
    },
    /// A particle construction requests more particles than the supported limit.
    ParticleCountTooLarge {
        /// Kind of particle construction making the request.
        construction: &'static str,
        /// Largest supported particle count.
        maximum: usize,
        /// Number of particles requested by the construction.
        requested: u64,
    },
    /// Generated particle identities cannot be represented by `u64`.
    ParticleIdentityOverflow,
    /// Explicit particle identities are not in strict ascending order.
    ParticleIdentityOrder {
        /// Previously observed particle identity.
        previous: u64,
        /// Identity that failed to exceed the previous identity.
        next: u64,
    },
    /// Adjacent lattice indices collapse to the same binary32 coordinate.
    LatticeCoordinateCollapse {
        /// Axis on which coordinate collapse occurred.
        axis: &'static str,
        /// Earlier lattice index.
        previous_index: u32,
        /// Later lattice index that produced the same coordinate.
        next_index: u32,
    },
    /// Lattice spacing differs from the resolved configuration's particle spacing.
    ParticleSpacingMismatch {
        /// Bits of the spacing specified by the scene, in metres.
        scene: u32,
        /// Bits of the spacing resolved from the numerical configuration, in metres.
        configuration: u32,
    },
    /// Two particles are closer than the permitted minimum separation.
    OverlappingParticles {
        /// Identity of the first overlapping particle.
        first: u64,
        /// Identity of the second overlapping particle.
        second: u64,
    },
    /// A particle lies outside the half-space permitted by a plane.
    ParticleOutsidePlane {
        /// Identity of the out-of-bounds particle.
        particle: u64,
        /// Index of the plane that excludes the particle.
        plane: usize,
    },
}

impl From<ConfigError> for SceneError {
    fn from(error: ConfigError) -> (r: Self) {
        SceneError::Configuration(error)
    }
}

impl vstd::std_specs::convert::FromSpecImpl<ConfigError> for SceneError {
    open spec fn obeys_from_spec() -> bool {
        true
    }

    open spec fn from_spec(v: ConfigError) -> Self {
        SceneError::Configuration(v)
    }
}

impl From<NumericalError> for SceneError {
    fn from(error: NumericalError) -> (r: Self) {
        SceneError::Numerical(error)
    }
}

impl vstd::std_specs::convert::FromSpecImpl<NumericalError> for SceneError {
    open spec fn obeys_from_spec() -> bool {
        true
    }

    open spec fn from_spec(v: NumericalError) -> Self {
        SceneError::Numerical(v)
    }
}

/// `r` is an invalid-selection error with this reason.
pub open spec fn selection_error(r: Result<(), SceneError>, reason: Seq<char>) -> bool {
    r matches Err(SceneError::InvalidConfigurationSelection { reason: found }) && found@ == reason
}

/// `reference` starts the way an absolute path starts on some platform: with
/// a root or prefix separator `/` or `\`, or it holds a `:` (a Windows drive
/// prefix or a Redox scheme).
pub open spec fn may_be_absolute(reference: Seq<char>) -> bool {
    (reference.len() > 0 && (reference[0] == '/' || reference[0] == '\\')) || reference.contains(':')
}

/// Calls `std::path::Path::new(reference).is_absolute()`.
///
/// The answer follows the platform's path rules: on Unix a path is absolute
/// when it starts with the root `/`; on Windows it needs a prefix and a root,
/// and every prefix either starts with `\` (verbatim, device and UNC
/// prefixes) or is a drive letter followed by `:`; on Redox a path is also
/// absolute when it names a scheme, written with `:`. The contract states only
/// what holds on every platform: an absolute path starts with `/` or `\`, or
/// holds a `:`. So a relative path such as `config/defaults-v1.toml`, or the
/// empty path, is never absolute.
#[verifier::external_body]
fn path_is_absolute(reference: &str) -> (r: bool)
    ensures
        r ==> may_be_absolute(reference@),
{
    std::path::Path::new(reference).is_absolute()
}

/// ### Decides a configuration reference from its absolute-path test
///
/// ### Errors
///
/// Returns [`SceneError::InvalidConfigurationSelection`] when `reference` is
/// blank, and otherwise when `absolute` says that it is an absolute path.
pub fn classify_reference(reference: &str, absolute: bool) -> (r: Result<(), SceneError>)
    ensures
        is_blank_text(reference@) ==> selection_error(r, "configuration path must not be empty"@),
        !is_blank_text(reference@) && absolute ==> selection_error(
            r,
            "configuration path must be relative to the scene document"@,
        ),
        !is_blank_text(reference@) && !absolute ==> r is Ok,
{
    if is_blank(reference) {
        return Err(
            SceneError::InvalidConfigurationSelection {
                reason: String::from_str("configuration path must not be empty"),
            },
        );
    }
    if absolute {
        return Err(
            SceneError::InvalidConfigurationSelection {
                reason: String::from_str("configuration path must be relative to the scene document"),
            },
        );
    }
    Ok(())
}

/// What holds of every outcome of checking a configuration reference: a blank
/// reference is refused as empty; one that starts with neither `/` nor `\`
/// and holds no `:` is accepted; any other is accepted or refused as absolute.
pub open spec fn reference_check(reference: Seq<char>, r: Result<(), SceneError>) -> bool {
    if is_blank_text(reference) {
        selection_error(r, "configuration path must not be empty"@)
    } else if !may_be_absolute(reference) {
        r is Ok
    } else {
        r is Ok || selection_error(r, "configuration path must be relative to the scene document"@)
    }
}

/// ### Requires a configuration reference to be a non-blank relative path
///
/// ### Errors
///
/// Returns [`SceneError::InvalidConfigurationSelection`] when `reference` is
/// blank or is an absolute path on this platform.
pub fn validate_relative_reference(reference: &str) -> (r: Result<(), SceneError>)
    ensures
        reference_check(reference@, r),
{
    let absolute = path_is_absolute(reference);
    classify_reference(reference, absolute)
}

/// The outcome of selecting a base configuration, for a given answer
/// `absolute` of the absolute-path test on the scene's path.
pub open spec fn selection_given(
    source: ConfigurationSource,
    path: Option<&str>,
    configuration_supplied: bool,
    absolute: bool,
    r: Result<bool, SceneError>,
) -> bool {
    match source {
        ConfigurationSource::BuiltInDefaults => if path is Some {
            r matches Err(SceneError::InvalidConfigurationSelection { reason }) && reason@
                == "built_in_defaults must not include path"@
        } else if configuration_supplied {
            r matches Err(SceneError::InvalidConfigurationSelection { reason }) && reason@
                == "a configuration document was supplied for built_in_defaults"@
        } else {
            r == Ok::<bool, SceneError>(false)
        },
        ConfigurationSource::File => match path {
            None => r matches Err(SceneError::InvalidConfigurationSelection { reason }) && reason@
                == "file source requires path"@,
            Some(reference) => if is_blank_text(reference@) {
                r matches Err(SceneError::InvalidConfigurationSelection { reason }) && reason@
                    == "configuration path must not be empty"@
            } else if absolute {
                r matches Err(SceneError::InvalidConfigurationSelection { reason }) && reason@
                    == "configuration path must be relative to the scene document"@
            } else if configuration_supplied {
                r == Ok::<bool, SceneError>(true)
            } else {
                r matches Err(SceneError::MissingConfigurationDocument)
            },
        },
    }
}

/// ### Decides which base configuration a scene is resolved against, given the path test
///
/// `absolute` is the answer of the absolute-path test on the scene's path.
/// On success the result says whether the supplied document is used.
///
/// ### Errors
///
/// As [`select_configuration`], with a non-blank path refused as absolute
/// exactly when `absolute` holds.
pub fn select_configuration_given(
    source: ConfigurationSource,
    path: Option<&str>,
    configuration_supplied: bool,
    absolute: bool,
) -> (r: Result<bool, SceneError>)
    ensures
        selection_given(source, path, configuration_supplied, absolute, r),
{
    match source {
        ConfigurationSource::BuiltInDefaults => {
            if path.is_some() {
                return Err(
                    SceneError::InvalidConfigurationSelection {
                        reason: String::from_str("built_in_defaults must not include path"),
                    },
                );
            }
            if configuration_supplied {
                return Err(
                    SceneError::InvalidConfigurationSelection {
                        reason: String::from_str(
                            "a configuration document was supplied for built_in_defaults",
                        ),
                    },
                );
            }
            Ok(false)
        },
        ConfigurationSource::File => {
            let reference = match path {
                Some(reference) => reference,
                None => {
                    return Err(
                        SceneError::InvalidConfigurationSelection {
                            reason: String::from_str("file source requires path"),
                        },
                    );
                },
            };
            match classify_reference(reference, absolute) {
                Ok(()) => {},
                Err(error) => {
                    return Err(error);
                },
            }
            if !configuration_supplied {
                return Err(SceneError::MissingConfigurationDocument);
            }
            Ok(true)
        },
    }
}

/// ### Decides which base configuration a scene is resolved against
///
/// `path` is the scene's configuration path and `configuration_supplied`
/// says whether the caller supplied a configuration document. On success the
/// result says whether that document is used.
///
/// ### Errors
///
/// - built-in defaults with a path, or with a supplied document:
///   [`SceneError::InvalidConfigurationSelection`];
/// - a file source without a path, or with a blank or absolute path:
///   [`SceneError::InvalidConfigurationSelection`];
/// - a file source whose document was not supplied:
///   [`SceneError::MissingConfigurationDocument`].
///
/// Whether a path is absolute follows the platform's rules; a path that
/// starts with neither `/` nor `\` and holds no `:` (such as
/// `config/defaults-v1.toml`) is relative everywhere, and for it the outcome
/// is fixed.
pub fn select_configuration(
    source: ConfigurationSource,
    path: Option<&str>,
    configuration_supplied: bool,
) -> (r: Result<bool, SceneError>)
    ensures
        selection_given(source, path, configuration_supplied, true, r) || selection_given(
            source,
            path,
            configuration_supplied,
            false,
            r,
        ),
        path matches Some(reference) && !may_be_absolute(reference@) ==> selection_given(
            source,
            path,
            configuration_supplied,
            false,
            r,
        ),
        path is None ==> selection_given(source, path, configuration_supplied, false, r),
        source == ConfigurationSource::File ==> (path matches Some(reference) && !is_blank_text(
            reference@,
        ) && !may_be_absolute(reference@) ==> if configuration_supplied {
            r == Ok::<bool, SceneError>(true)
        } else {
            r matches Err(SceneError::MissingConfigurationDocument)
        }),
{
    let absolute = match path {
        Some(reference) => path_is_absolute(reference),
        None => false,
    };
    select_configuration_given(source, path, configuration_supplied, absolute)
}

} // verus!

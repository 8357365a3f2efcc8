//! # Versioned deterministic scenes
//!
//! A scene fixes the initial particles, static half-spaces and numerical
//! configuration for one simulation input. This module holds the rules of
//! scene resolution and the inspection text, as far as they do not depend on
//! floating-point arithmetic.

mod document;
mod geometry;
mod particles;
mod readback;
mod inspection;
mod resolved;

pub use document::{
    ConfigurationSource, LatticeEndpointRule, LatticeOrder, RandomnessPolicy, validate_scene_text,
};
pub use resolved::{
    MAX_EXPLICIT_PARTICLES, MAX_LATTICE_PARTICLES, MAX_PLANES, SceneError, classify_reference, may_be_absolute,
    reference_check, select_configuration, select_configuration_given, selection_error, selection_given, validate_relative_reference,
};
pub use geometry::check_plane_count;
pub use particles::{
    axis_name, check_explicit_count, check_identity_order, check_lattice_axes, lattice_cell,
    lattice_identity,
    lattice_particle_count, lattice_total, lemma_lattice_order_is_injective,
};
pub use inspection::{
    canonical_inspection, lemma_particle_lines_append, lemma_particle_lines_single,
    lemma_plane_lines_in_order,
    lemma_scene_inspection_identifies_labels, particle_line, particle_lines, plane_line, plane_lines,
    scene_body_text, scene_inspection_text,
};
pub use readback::{
    lemma_scene_inspection_identifies_scene, none_quoted, particle_rows, plane_keys, plane_values,
    scene_texts_plain,
};

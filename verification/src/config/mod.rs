//! # Versioned numerical configuration
//!
//! Configuration layers are always applied in the same order:
//!
//! - built-in default values
//! - a configuration document
//! - scene-owned values
//! - then command-line-owned values.

mod document;
mod inspection;
mod layers;
mod readback;
mod resolved;
mod validation;

pub use document::{text_check, validate_schema, validate_text};
pub use resolved::{
    BOUNDARY_MODEL, CONFIG_SCHEMA_VERSION, COORDINATE_SYSTEM, CORRECTION_KERNEL, ConfigError,
    DENSITY_KERNEL, FieldSource, MAX_SOLVER_ITERATIONS, NEIGHBOUR_REBUILD_POLICY,
    NUMERICAL_FIELD_COUNT, NumericalField, PARTICLE_ORDER_POLICY, SCALAR_PRECISION,
    SOLVER_UPDATE_POLICY, SUPPORT_POLICY, TIMESTEP_POLICY, ValueSources, declared_fields, default_sources,
    field_index, field_name, fields_in_name_order, layered_source, lemma_declared_fields,
    lemma_name_order_is_sorted_permutation, lemma_provenance_follows_precedence, text_precedes,
    text_precedes_at,
};
pub use validation::{
    DerivedCheck, POLICY_FIELD_COUNT, assertion_fails, binary32_bits_finite, debug_quoted, policy_differs,
    policy_field, policy_mismatch_reason, require_policy, supported_policy, validate_assertions,
    validate_policies, validate_solver_iterations, validate_unsupported_switches,
};
pub use readback::{
    derived_keys, derived_quoted, derived_values, float_texts_plain, fold_lines, joined_lines,
    keyed_lines, lemma_bracketed_items_read_back, lemma_canonical_toml_identifies_configuration,
    lemma_fold_is_joined, lemma_fold_push, lemma_items_read_back, lemma_items_without_line_breaks,
    lemma_joined_push, lemma_keyed_lines_read_back, numerical_keys, numerical_quoted,
    numerical_values, plain_value, same_inspected_values, shown,
};
pub use layers::{
    NumericalOverlay, NumericalValues, apply_overrides, field_supplied, lemma_layer_values,
    lemma_supplied_fields, overlaid, overridden,
};
pub use inspection::{
    InspectedConfiguration, bracketed, canonical_toml, canonical_toml_text, derived_section_text,
    header_text, lemma_canonical_toml_identifies_labels, lemma_header_identifies_labels, push_header,
    items_text, line_text, numerical_section_text, provenance_text, push_bool_line, push_bracketed,
    push_bracketed_line, push_decimal_line, push_line, push_provenance, push_string, source_name,
    text_views,
};

//! # Structural checks on configuration documents
//!
//! A parsed document must declare the supported schema version and carry
//! identifying text that is neither blank nor holds control characters.

use vstd::prelude::*;

use super::resolved::{CONFIG_SCHEMA_VERSION, ConfigError};
use crate::text::{has_control, has_control_text, is_blank, is_blank_text};

verus! {

/// ### Checks a document's declared schema version
///
/// ### Errors
///
/// Returns [`ConfigError::UnsupportedSchema`] naming `document` when `found`
/// is not [`CONFIG_SCHEMA_VERSION`].
pub fn validate_schema(found: u32, document: &'static str) -> (r: Result<(), ConfigError>)
    ensures
        r is Ok <==> found == CONFIG_SCHEMA_VERSION,
        r matches Err(e) ==> e == (ConfigError::UnsupportedSchema {
            document,
            supported: CONFIG_SCHEMA_VERSION,
            found,
        }),
{
    if found == CONFIG_SCHEMA_VERSION {
        Ok(())
    } else {
        Err(ConfigError::UnsupportedSchema { document, supported: CONFIG_SCHEMA_VERSION, found })
    }
}

/// The outcome of checking one identifying text field.
pub open spec fn text_check(field: &'static str, value: Seq<char>, r: Result<(), ConfigError>) -> bool {
    if is_blank_text(value) {
        r matches Err(ConfigError::InvalidField { field: f, reason }) && f == field && reason@
            == "must not be empty"@
    } else if has_control_text(value) {
        r matches Err(ConfigError::InvalidField { field: f, reason }) && f == field && reason@
            == "must not contain control characters"@
    } else {
        r is Ok
    }
}

/// ### Checks one identifying text field
///
/// ### Errors
///
/// Returns [`ConfigError::InvalidField`] naming `field` when `value` is blank
/// (only whitespace, or empty), and otherwise when it contains a control
/// character.
pub fn validate_text(field: &'static str, value: &str) -> (r: Result<(), ConfigError>)
    ensures
        text_check(field, value@, r),
{
    if is_blank(value) {
        return Err(
            ConfigError::InvalidField { field, reason: String::from_str("must not be empty") },
        );
    }
    if has_control(value) {
        return Err(
            ConfigError::InvalidField {
                field,
                reason: String::from_str("must not contain control characters"),
            },
        );
    }
    Ok(())
}

} // verus!

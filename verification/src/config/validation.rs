//! # Configuration rules on non-numeric values
//!
//! Fixed policies, the solver iteration range, unsupported switches, and exact
//! derived-value assertions are checked here. Each check reports the first
//! failing field in the fixed order in which fields are validated.

use vstd::prelude::*;

use super::resolved::{
    BOUNDARY_MODEL, COORDINATE_SYSTEM, CORRECTION_KERNEL, ConfigError, DENSITY_KERNEL,
    MAX_SOLVER_ITERATIONS, NEIGHBOUR_REBUILD_POLICY, NumericalField, PARTICLE_ORDER_POLICY,
    SCALAR_PRECISION, SOLVER_UPDATE_POLICY, SUPPORT_POLICY, TIMESTEP_POLICY, field_name,
};
use crate::text::same_text;

verus! {

/// The text that `str`'s `Debug` formatting writes for `text`: the text
/// between double quotes, with its characters escaped.
pub uninterp spec fn debug_quoted(text: Seq<char>) -> Seq<char>;

/// Writes `text` with `format!("{text:?}")`.
///
/// Trusted: the contract only names the produced text; it claims that the
/// text depends on `text` alone, which holds for `str`'s `Debug` output. The
/// escaping rules themselves are not stated.
#[verifier::external_body]
fn debug_text(text: &str) -> (r: String)
    ensures
        r@ == debug_quoted(text@),
{
    format!("{text:?}")
}

/// The reason given for a policy mismatch: the supported value and the
/// supplied value, each in `Debug` quoting.
pub open spec fn policy_mismatch_reason(supported: Seq<char>, value: Seq<char>) -> Seq<char> {
    "supported value is "@ + debug_quoted(supported) + ", got "@ + debug_quoted(value)
}

/// Writes the reason for a policy mismatch.
fn describe_policy_mismatch(supported: &str, value: &str) -> (r: String)
    ensures
        r@ == policy_mismatch_reason(supported@, value@),
{
    let mut reason = String::from_str("supported value is ");
    let supported_text = debug_text(supported);
    reason.append(supported_text.as_str());
    reason.append(", got ");
    let value_text = debug_text(value);
    reason.append(value_text.as_str());
    reason
}

/// ### Requires a field to hold its single supported policy
///
/// ### Errors
///
/// Returns [`ConfigError::InvalidField`] naming `field` when `value` differs
/// from `supported`.
pub fn require_policy(field: &'static str, value: &str, supported: &'static str) -> (r: Result<
    (),
    ConfigError,
>)
    ensures
        r is Ok <==> value@ == supported@,
        r matches Err(e) ==> e matches ConfigError::InvalidField { field: f, reason } && f == field
            && reason@ == policy_mismatch_reason(supported@, value@),
{
    if same_text(value, supported) {
        Ok(())
    } else {
        Err(ConfigError::InvalidField { field, reason: describe_policy_mismatch(supported, value) })
    }
}

/// Number of fixed-policy fields.
pub const POLICY_FIELD_COUNT: usize = 10;

/// The fixed-policy fields, in validation order.
pub open spec fn policy_field(i: int) -> NumericalField {
    if i == 0 {
        NumericalField::ScalarPrecision
    } else if i == 1 {
        NumericalField::CoordinateSystem
    } else if i == 2 {
        NumericalField::TimestepPolicy
    } else if i == 3 {
        NumericalField::DensityKernel
    } else if i == 4 {
        NumericalField::CorrectionKernel
    } else if i == 5 {
        NumericalField::SolverUpdatePolicy
    } else if i == 6 {
        NumericalField::SupportPolicy
    } else if i == 7 {
        NumericalField::BoundaryModel
    } else if i == 8 {
        NumericalField::NeighbourRebuildPolicy
    } else {
        NumericalField::ParticleOrderPolicy
    }
}

/// The single supported value of the `i`-th fixed-policy field.
pub open spec fn supported_policy(i: int) -> Seq<char> {
    if i == 0 {
        SCALAR_PRECISION@
    } else if i == 1 {
        COORDINATE_SYSTEM@
    } else if i == 2 {
        TIMESTEP_POLICY@
    } else if i == 3 {
        DENSITY_KERNEL@
    } else if i == 4 {
        CORRECTION_KERNEL@
    } else if i == 5 {
        SOLVER_UPDATE_POLICY@
    } else if i == 6 {
        SUPPORT_POLICY@
    } else if i == 7 {
        BOUNDARY_MODEL@
    } else if i == 8 {
        NEIGHBOUR_REBUILD_POLICY@
    } else {
        PARTICLE_ORDER_POLICY@
    }
}

fn policy_at(i: usize) -> (r: (NumericalField, &'static str))
    requires
        i < POLICY_FIELD_COUNT,
    ensures
        r.0 == policy_field(i as int),
        r.1@ == supported_policy(i as int),
{
    if i == 0 {
        (NumericalField::ScalarPrecision, SCALAR_PRECISION)
    } else if i == 1 {
        (NumericalField::CoordinateSystem, COORDINATE_SYSTEM)
    } else if i == 2 {
        (NumericalField::TimestepPolicy, TIMESTEP_POLICY)
    } else if i == 3 {
        (NumericalField::DensityKernel, DENSITY_KERNEL)
    } else if i == 4 {
        (NumericalField::CorrectionKernel, CORRECTION_KERNEL)
    } else if i == 5 {
        (NumericalField::SolverUpdatePolicy, SOLVER_UPDATE_POLICY)
    } else if i == 6 {
        (NumericalField::SupportPolicy, SUPPORT_POLICY)
    } else if i == 7 {
        (NumericalField::BoundaryModel, BOUNDARY_MODEL)
    } else if i == 8 {
        (NumericalField::NeighbourRebuildPolicy, NEIGHBOUR_REBUILD_POLICY)
    } else {
        (NumericalField::ParticleOrderPolicy, PARTICLE_ORDER_POLICY)
    }
}

/// The `i`-th fixed-policy value differs from its supported value.
pub open spec fn policy_differs(values: Seq<&str>, i: int) -> bool {
    values[i]@ != supported_policy(i)
}

/// ### Requires every fixed-policy field to hold its supported value
///
/// `values` holds, in order, `scalar_precision`, `coordinate_system`,
/// `timestep_policy`, `density_kernel`, `correction_kernel`,
/// `solver_update_policy`, `support_policy`, `boundary_model`,
/// `neighbour_rebuild_policy` and `particle_order_policy`.
///
/// ### Errors
///
/// Returns [`ConfigError::InvalidField`] for the first field, in that order,
/// whose value is not supported.
pub fn validate_policies(values: [&str; 10]) -> (r: Result<(), ConfigError>)
    ensures
        r is Ok <==> forall|i: int| 0 <= i < POLICY_FIELD_COUNT ==> !#[trigger] policy_differs(
            values@,
            i,
        ),
        r matches Err(e) ==> exists|i: int|
            0 <= i < POLICY_FIELD_COUNT && #[trigger] policy_differs(values@, i) && (forall|j: int|
                0 <= j < i ==> !#[trigger] policy_differs(values@, j)) && (
            e matches ConfigError::InvalidField { field, reason } && field@ == field_name(
                policy_field(i),
            ) && reason@ == policy_mismatch_reason(supported_policy(i), values@[i]@)),
{
    let mut i: usize = 0;
    while i < POLICY_FIELD_COUNT
        invariant
            i <= POLICY_FIELD_COUNT,
            forall|j: int| 0 <= j < i ==> !#[trigger] policy_differs(values@, j),
        decreases POLICY_FIELD_COUNT - i,
    {
        let (field, supported) = policy_at(i);
        let checked = require_policy(field.name(), values[i], supported);
        if checked.is_err() {
            assert(policy_differs(values@, i as int));
            return checked;
        }
        i = i + 1;
    }
    Ok(())
}

/// ### Requires the solver iteration count to lie in `1..=MAX_SOLVER_ITERATIONS`
///
/// ### Errors
///
/// Returns [`ConfigError::InvalidField`] for `solver_iterations` otherwise.
pub fn validate_solver_iterations(solver_iterations: u32) -> (r: Result<(), ConfigError>)
    ensures
        r is Ok <==> 1 <= solver_iterations <= MAX_SOLVER_ITERATIONS,
        r matches Err(e) ==> e matches ConfigError::InvalidField { field, reason } && field@
            == "solver_iterations"@ && reason@ == "must be in 1..=64"@,
{
    if solver_iterations < 1 || solver_iterations > MAX_SOLVER_ITERATIONS {
        Err(
            ConfigError::InvalidField {
                field: "solver_iterations",
                reason: String::from_str("must be in 1..=64"),
            },
        )
    } else {
        Ok(())
    }
}

/// ### Rejects enabled features that the numerical contract does not support
///
/// ### Errors
///
/// Returns [`ConfigError::InvalidField`] for `xsph_viscosity_enabled` when it
/// is set, and otherwise for `vorticity_confinement_enabled` when it is set.
pub fn validate_unsupported_switches(
    xsph_viscosity_enabled: bool,
    vorticity_confinement_enabled: bool,
) -> (r: Result<(), ConfigError>)
    ensures
        r is Ok <==> !xsph_viscosity_enabled && !vorticity_confinement_enabled,
        r matches Err(e) ==> e matches ConfigError::InvalidField { field, reason } && (if xsph_viscosity_enabled {
            field@ == "xsph_viscosity_enabled"@
        } else {
            field@ == "vorticity_confinement_enabled"@
        }) && reason@ == "true is not supported by the current numerical contract"@,
{
    if xsph_viscosity_enabled {
        return Err(
            ConfigError::InvalidField {
                field: "xsph_viscosity_enabled",
                reason: String::from_str("true is not supported by the current numerical contract"),
            },
        );
    }
    if vorticity_confinement_enabled {
        return Err(
            ConfigError::InvalidField {
                field: "vorticity_confinement_enabled",
                reason: String::from_str("true is not supported by the current numerical contract"),
            },
        );
    }
    Ok(())
}

/// The binary32 value with these bits is finite (its exponent is not all ones).
pub open spec fn binary32_bits_finite(bits: u32) -> bool {
    bits & 0x7f80_0000u32 != 0x7f80_0000u32
}

/// One optional exact assertion on a derived value.
///
/// Values are the IEEE-754 bit patterns of binary32 numbers.
#[derive(Clone, Copy, Debug)]
pub struct DerivedCheck {
    /// Name of the derived field.
    pub field: &'static str,
    /// Bits of the value an overlay asserts, if it asserts one.
    pub provided: Option<u32>,
    /// Bits of the authoritative derived value.
    pub expected: u32,
}

/// The assertion is present and is not exactly the authoritative value.
pub open spec fn assertion_fails(check: DerivedCheck) -> bool {
    check.provided matches Some(provided) && (!binary32_bits_finite(provided) || provided
        != check.expected)
}

/// ### Checks derived assertions for exact equality
///
/// An assertion holds when it is absent, or when it is finite and has exactly
/// the bits of the authoritative value.
///
/// ### Errors
///
/// Returns [`ConfigError::DerivedMismatch`] for the first failing assertion.
pub fn validate_assertions(layer: &'static str, checks: &[DerivedCheck]) -> (r: Result<
    (),
    ConfigError,
>)
    ensures
        r is Ok <==> forall|i: int| 0 <= i < checks@.len() ==> !#[trigger] assertion_fails(
            checks@[i],
        ),
        r matches Err(e) ==> exists|i: int|
            0 <= i < checks@.len() && #[trigger] assertion_fails(checks@[i]) && (forall|j: int|
                0 <= j < i ==> !#[trigger] assertion_fails(checks@[j])) && e == (
            ConfigError::DerivedMismatch {
                layer,
                field: checks@[i].field,
                expected: checks@[i].expected,
                provided: checks@[i].provided->0,
            }),
{
    let mut i: usize = 0;
    while i < checks.len()
        invariant
            i <= checks@.len(),
            forall|j: int| 0 <= j < i ==> !#[trigger] assertion_fails(checks@[j]),
        decreases checks@.len() - i,
    {
        let check = checks[i];
        if let Some(provided) = check.provided {
            if provided & 0x7f80_0000u32 == 0x7f80_0000u32 || provided != check.expected {
                assert(assertion_fails(checks@[i as int]));
                return Err(
                    ConfigError::DerivedMismatch {
                        layer,
                        field: check.field,
                        expected: check.expected,
                        provided,
                    },
                );
            }
        }
        i = i + 1;
    }
    Ok(())
}

} // verus!

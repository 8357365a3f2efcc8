//! # Resolved configuration records
//!
//! Fixed policies, the set of numerical fields a configuration layer may set,
//! the provenance record that says which layer supplied each field, and the
//! configuration error type.

use vstd::prelude::*;

use crate::NumericalError;

verus! {

/// Supported configuration schema version.
pub const CONFIG_SCHEMA_VERSION: u32 = 1;

/// Scalar representation used by every numerical input and derived value.
pub const SCALAR_PRECISION: &'static str = "binary32";

/// Coordinate and unit convention used by configuration and scenes.
pub const COORDINATE_SYSTEM: &'static str = "right_handed_y_up_metres_seconds_kilograms";

/// Supported timestep selection policy.
pub const TIMESTEP_POLICY: &'static str = "fixed";

/// Density kernel used by the numerical contract.
pub const DENSITY_KERNEL: &'static str = "poly6";

/// Correction-direction kernel used by the numerical contract.
pub const CORRECTION_KERNEL: &'static str = "spiky";

/// Supported solver update ordering.
pub const SOLVER_UPDATE_POLICY: &'static str = "jacobi_immutable_snapshot";

/// Kernel support comparison used by discovery and kernel evaluation.
pub const SUPPORT_POLICY: &'static str = "strict_less_than";

/// Supported boundary model.
pub const BOUNDARY_MODEL: &'static str = "static_plane_projection";

/// Supported neighbour-set lifetime.
pub const NEIGHBOUR_REBUILD_POLICY: &'static str = "once_after_prediction";

/// Serial ordering policy.
pub const PARTICLE_ORDER_POLICY: &'static str = "ascending_particle_identity";

/// Largest supported fixed solver iteration count.
pub const MAX_SOLVER_ITERATIONS: u32 = 64;

/// Origin of one effective numerical value.
#[derive(Clone, Copy, Debug, PartialEq, Eq, Structural)]
pub enum FieldSource {
    /// The built-in default supplied by the simulator.
    BuiltInDefault,
    /// A value supplied by a configuration document.
    ConfigurationFile,
    /// A value supplied by a scene overlay.
    Scene,
    /// A value supplied by a command-line overlay.
    CommandLine,
}

/// One primary numerical value that a configuration layer may replace.
#[derive(Clone, Copy, Debug, PartialEq, Eq, Structural)]
pub enum NumericalField {
    /// The `scalar_precision` value.
    ScalarPrecision,
    /// The `coordinate_system` value.
    CoordinateSystem,
    /// The `timestep_policy` value.
    TimestepPolicy,
    /// The `density_kernel` value.
    DensityKernel,
    /// The `correction_kernel` value.
    CorrectionKernel,
    /// The `solver_update_policy` value.
    SolverUpdatePolicy,
    /// The `external_acceleration_m_s2` value.
    ExternalAccelerationMS2,
    /// The `fixed_timestep_s` value.
    FixedTimestepS,
    /// The `cfl_factor` value.
    CflFactor,
    /// The `particle_spacing_m` value.
    ParticleSpacingM,
    /// The `support_radius_ratio` value.
    SupportRadiusRatio,
    /// The `physical_rest_density_kg_m3` value.
    PhysicalRestDensityKgM3,
    /// The `solver_iterations` value.
    SolverIterations,
    /// The `relaxation_scale` value.
    RelaxationScale,
    /// The `artificial_pressure_enabled` value.
    ArtificialPressureEnabled,
    /// The `artificial_pressure_strength_scale` value.
    ArtificialPressureStrengthScale,
    /// The `artificial_pressure_reference_separation_ratio` value.
    ArtificialPressureReferenceSeparationRatio,
    /// The `artificial_pressure_exponent` value.
    ArtificialPressureExponent,
    /// The `support_policy` value.
    SupportPolicy,
    /// The `boundary_model` value.
    BoundaryModel,
    /// The `neighbour_rebuild_policy` value.
    NeighbourRebuildPolicy,
    /// The `particle_order_policy` value.
    ParticleOrderPolicy,
    /// The `xsph_viscosity_enabled` value.
    XsphViscosityEnabled,
    /// The `vorticity_confinement_enabled` value.
    VorticityConfinementEnabled,
}

/// Number of primary numerical fields.
pub const NUMERICAL_FIELD_COUNT: usize = 24;

/// Position of a field in declaration order.
pub open spec fn field_index(field: NumericalField) -> int {
    match field {
        NumericalField::ScalarPrecision => 0,
        NumericalField::CoordinateSystem => 1,
        NumericalField::TimestepPolicy => 2,
        NumericalField::DensityKernel => 3,
        NumericalField::CorrectionKernel => 4,
        NumericalField::SolverUpdatePolicy => 5,
        NumericalField::ExternalAccelerationMS2 => 6,
        NumericalField::FixedTimestepS => 7,
        NumericalField::CflFactor => 8,
        NumericalField::ParticleSpacingM => 9,
        NumericalField::SupportRadiusRatio => 10,
        NumericalField::PhysicalRestDensityKgM3 => 11,
        NumericalField::SolverIterations => 12,
        NumericalField::RelaxationScale => 13,
        NumericalField::ArtificialPressureEnabled => 14,
        NumericalField::ArtificialPressureStrengthScale => 15,
        NumericalField::ArtificialPressureReferenceSeparationRatio => 16,
        NumericalField::ArtificialPressureExponent => 17,
        NumericalField::SupportPolicy => 18,
        NumericalField::BoundaryModel => 19,
        NumericalField::NeighbourRebuildPolicy => 20,
        NumericalField::ParticleOrderPolicy => 21,
        NumericalField::XsphViscosityEnabled => 22,
        NumericalField::VorticityConfinementEnabled => 23,
    }
}

/// The field's name as written in configuration documents.
pub open spec fn field_name(field: NumericalField) -> Seq<char> {
    match field {
        NumericalField::ScalarPrecision => "scalar_precision"@,
        NumericalField::CoordinateSystem => "coordinate_system"@,
        NumericalField::TimestepPolicy => "timestep_policy"@,
        NumericalField::DensityKernel => "density_kernel"@,
        NumericalField::CorrectionKernel => "correction_kernel"@,
        NumericalField::SolverUpdatePolicy => "solver_update_policy"@,
        NumericalField::ExternalAccelerationMS2 => "external_acceleration_m_s2"@,
        NumericalField::FixedTimestepS => "fixed_timestep_s"@,
        NumericalField::CflFactor => "cfl_factor"@,
        NumericalField::ParticleSpacingM => "particle_spacing_m"@,
        NumericalField::SupportRadiusRatio => "support_radius_ratio"@,
        NumericalField::PhysicalRestDensityKgM3 => "physical_rest_density_kg_m3"@,
        NumericalField::SolverIterations => "solver_iterations"@,
        NumericalField::RelaxationScale => "relaxation_scale"@,
        NumericalField::ArtificialPressureEnabled => "artificial_pressure_enabled"@,
        NumericalField::ArtificialPressureStrengthScale => "artificial_pressure_strength_scale"@,
        NumericalField::ArtificialPressureReferenceSeparationRatio => "artificial_pressure_reference_separation_ratio"@,
        NumericalField::ArtificialPressureExponent => "artificial_pressure_exponent"@,
        NumericalField::SupportPolicy => "support_policy"@,
        NumericalField::BoundaryModel => "boundary_model"@,
        NumericalField::NeighbourRebuildPolicy => "neighbour_rebuild_policy"@,
        NumericalField::ParticleOrderPolicy => "particle_order_policy"@,
        NumericalField::XsphViscosityEnabled => "xsph_viscosity_enabled"@,
        NumericalField::VorticityConfinementEnabled => "vorticity_confinement_enabled"@,
    }
}

/// Every field, in declaration order.
pub open spec fn declared_fields() -> Seq<NumericalField> {
    seq![
        NumericalField::ScalarPrecision,
        NumericalField::CoordinateSystem,
        NumericalField::TimestepPolicy,
        NumericalField::DensityKernel,
        NumericalField::CorrectionKernel,
        NumericalField::SolverUpdatePolicy,
        NumericalField::ExternalAccelerationMS2,
        NumericalField::FixedTimestepS,
        NumericalField::CflFactor,
        NumericalField::ParticleSpacingM,
        NumericalField::SupportRadiusRatio,
        NumericalField::PhysicalRestDensityKgM3,
        NumericalField::SolverIterations,
        NumericalField::RelaxationScale,
        NumericalField::ArtificialPressureEnabled,
        NumericalField::ArtificialPressureStrengthScale,
        NumericalField::ArtificialPressureReferenceSeparationRatio,
        NumericalField::ArtificialPressureExponent,
        NumericalField::SupportPolicy,
        NumericalField::BoundaryModel,
        NumericalField::NeighbourRebuildPolicy,
        NumericalField::ParticleOrderPolicy,
        NumericalField::XsphViscosityEnabled,
        NumericalField::VorticityConfinementEnabled
    ]
}

/// Every field, in ascending byte order of its name.
pub open spec fn fields_in_name_order() -> Seq<NumericalField> {
    seq![
        NumericalField::ArtificialPressureEnabled,
        NumericalField::ArtificialPressureExponent,
        NumericalField::ArtificialPressureReferenceSeparationRatio,
        NumericalField::ArtificialPressureStrengthScale,
        NumericalField::BoundaryModel,
        NumericalField::CflFactor,
        NumericalField::CoordinateSystem,
        NumericalField::CorrectionKernel,
        NumericalField::DensityKernel,
        NumericalField::ExternalAccelerationMS2,
        NumericalField::FixedTimestepS,
        NumericalField::NeighbourRebuildPolicy,
        NumericalField::ParticleOrderPolicy,
        NumericalField::ParticleSpacingM,
        NumericalField::PhysicalRestDensityKgM3,
        NumericalField::RelaxationScale,
        NumericalField::ScalarPrecision,
        NumericalField::SolverIterations,
        NumericalField::SolverUpdatePolicy,
        NumericalField::SupportPolicy,
        NumericalField::SupportRadiusRatio,
        NumericalField::TimestepPolicy,
        NumericalField::VorticityConfinementEnabled,
        NumericalField::XsphViscosityEnabled
    ]
}

/// `a` comes before `b` at position `i`: they agree before `i`, and there `a`
/// either ends while `b` goes on, or has the smaller character.
pub open spec fn text_precedes_at(a: Seq<char>, b: Seq<char>, i: int) -> bool {
    &&& 0 <= i <= a.len()
    &&& i <= b.len()
    &&& a.take(i) == b.take(i)
    &&& (i == a.len() && i < b.len()) || (i < a.len() && i < b.len() && (a[i] as u32) < (b[i] as u32))
}

/// `a` comes strictly before `b` in the byte order of UTF-8 text (which is the
/// order of code points).
pub open spec fn text_precedes(a: Seq<char>, b: Seq<char>) -> bool {
    exists|i: int| text_precedes_at(a, b, i)
}

/// ### Provenance is listed in ascending name order
///
/// The name-order field list holds every field exactly once, and each name
/// comes strictly before the next in byte order.
pub proof fn lemma_name_order_is_sorted_permutation()
    ensures
        fields_in_name_order().len() == NUMERICAL_FIELD_COUNT,
        forall|field: NumericalField| fields_in_name_order().contains(field),
        forall|k: int|
            0 <= k < NUMERICAL_FIELD_COUNT - 1 ==> text_precedes(
                field_name(#[trigger] fields_in_name_order()[k]),
                field_name(fields_in_name_order()[k + 1]),
            ),
{
    let order = fields_in_name_order();
    assert forall|field: NumericalField| order.contains(field) by {
        match field {
            NumericalField::ScalarPrecision => assert(order[16] == field),
            NumericalField::CoordinateSystem => assert(order[6] == field),
            NumericalField::TimestepPolicy => assert(order[21] == field),
            NumericalField::DensityKernel => assert(order[8] == field),
            NumericalField::CorrectionKernel => assert(order[7] == field),
            NumericalField::SolverUpdatePolicy => assert(order[18] == field),
            NumericalField::ExternalAccelerationMS2 => assert(order[9] == field),
            NumericalField::FixedTimestepS => assert(order[10] == field),
            NumericalField::CflFactor => assert(order[5] == field),
            NumericalField::ParticleSpacingM => assert(order[13] == field),
            NumericalField::SupportRadiusRatio => assert(order[20] == field),
            NumericalField::PhysicalRestDensityKgM3 => assert(order[14] == field),
            NumericalField::SolverIterations => assert(order[17] == field),
            NumericalField::RelaxationScale => assert(order[15] == field),
            NumericalField::ArtificialPressureEnabled => assert(order[0] == field),
            NumericalField::ArtificialPressureStrengthScale => assert(order[3] == field),
            NumericalField::ArtificialPressureReferenceSeparationRatio => assert(order[2] == field),
            NumericalField::ArtificialPressureExponent => assert(order[1] == field),
            NumericalField::SupportPolicy => assert(order[19] == field),
            NumericalField::BoundaryModel => assert(order[4] == field),
            NumericalField::NeighbourRebuildPolicy => assert(order[11] == field),
            NumericalField::ParticleOrderPolicy => assert(order[12] == field),
            NumericalField::XsphViscosityEnabled => assert(order[23] == field),
            NumericalField::VorticityConfinementEnabled => assert(order[22] == field),
        }
    }
    assert(text_precedes("artificial_pressure_enabled"@, "artificial_pressure_exponent"@)) by {
        reveal_strlit("artificial_pressure_enabled");
        reveal_strlit("artificial_pressure_exponent");
        assert("artificial_pressure_enabled"@.take(21) =~= "artificial_pressure_exponent"@.take(21));
        assert(text_precedes_at("artificial_pressure_enabled"@, "artificial_pressure_exponent"@, 21));
    }
    assert(text_precedes("artificial_pressure_exponent"@, "artificial_pressure_reference_separation_ratio"@)) by {
        reveal_strlit("artificial_pressure_exponent");
        reveal_strlit("artificial_pressure_reference_separation_ratio");
        assert("artificial_pressure_exponent"@.take(20) =~= "artificial_pressure_reference_separation_ratio"@.take(20));
        assert(text_precedes_at("artificial_pressure_exponent"@, "artificial_pressure_reference_separation_ratio"@, 20));
    }
    assert(text_precedes("artificial_pressure_reference_separation_ratio"@, "artificial_pressure_strength_scale"@)) by {
        reveal_strlit("artificial_pressure_reference_separation_ratio");
        reveal_strlit("artificial_pressure_strength_scale");
        assert("artificial_pressure_reference_separation_ratio"@.take(20) =~= "artificial_pressure_strength_scale"@.take(20));
        assert(text_precedes_at("artificial_pressure_reference_separation_ratio"@, "artificial_pressure_strength_scale"@, 20));
    }
    assert(text_precedes("artificial_pressure_strength_scale"@, "boundary_model"@)) by {
        reveal_strlit("artificial_pressure_strength_scale");
        reveal_strlit("boundary_model");
        assert("artificial_pressure_strength_scale"@.take(0) =~= "boundary_model"@.take(0));
        assert(text_precedes_at("artificial_pressure_strength_scale"@, "boundary_model"@, 0));
    }
    assert(text_precedes("boundary_model"@, "cfl_factor"@)) by {
        reveal_strlit("boundary_model");
        reveal_strlit("cfl_factor");
        assert("boundary_model"@.take(0) =~= "cfl_factor"@.take(0));
        assert(text_precedes_at("boundary_model"@, "cfl_factor"@, 0));
    }
    assert(text_precedes("cfl_factor"@, "coordinate_system"@)) by {
        reveal_strlit("cfl_factor");
        reveal_strlit("coordinate_system");
        assert("cfl_factor"@.take(1) =~= "coordinate_system"@.take(1));
        assert(text_precedes_at("cfl_factor"@, "coordinate_system"@, 1));
    }
    assert(text_precedes("coordinate_system"@, "correction_kernel"@)) by {
        reveal_strlit("coordinate_system");
        reveal_strlit("correction_kernel");
        assert("coordinate_system"@.take(2) =~= "correction_kernel"@.take(2));
        assert(text_precedes_at("coordinate_system"@, "correction_kernel"@, 2));
    }
    assert(text_precedes("correction_kernel"@, "density_kernel"@)) by {
        reveal_strlit("correction_kernel");
        reveal_strlit("density_kernel");
        assert("correction_kernel"@.take(0) =~= "density_kernel"@.take(0));
        assert(text_precedes_at("correction_kernel"@, "density_kernel"@, 0));
    }
    assert(text_precedes("density_kernel"@, "external_acceleration_m_s2"@)) by {
        reveal_strlit("density_kernel");
        reveal_strlit("external_acceleration_m_s2");
        assert("density_kernel"@.take(0) =~= "external_acceleration_m_s2"@.take(0));
        assert(text_precedes_at("density_kernel"@, "external_acceleration_m_s2"@, 0));
    }
    assert(text_precedes("external_acceleration_m_s2"@, "fixed_timestep_s"@)) by {
        reveal_strlit("external_acceleration_m_s2");
        reveal_strlit("fixed_timestep_s");
        assert("external_acceleration_m_s2"@.take(0) =~= "fixed_timestep_s"@.take(0));
        assert(text_precedes_at("external_acceleration_m_s2"@, "fixed_timestep_s"@, 0));
    }
    assert(text_precedes("fixed_timestep_s"@, "neighbour_rebuild_policy"@)) by {
        reveal_strlit("fixed_timestep_s");
        reveal_strlit("neighbour_rebuild_policy");
        assert("fixed_timestep_s"@.take(0) =~= "neighbour_rebuild_policy"@.take(0));
        assert(text_precedes_at("fixed_timestep_s"@, "neighbour_rebuild_policy"@, 0));
    }
    assert(text_precedes("neighbour_rebuild_policy"@, "particle_order_policy"@)) by {
        reveal_strlit("neighbour_rebuild_policy");
        reveal_strlit("particle_order_policy");
        assert("neighbour_rebuild_policy"@.take(0) =~= "particle_order_policy"@.take(0));
        assert(text_precedes_at("neighbour_rebuild_policy"@, "particle_order_policy"@, 0));
    }
    assert(text_precedes("particle_order_policy"@, "particle_spacing_m"@)) by {
        reveal_strlit("particle_order_policy");
        reveal_strlit("particle_spacing_m");
        assert("particle_order_policy"@.take(9) =~= "particle_spacing_m"@.take(9));
        assert(text_precedes_at("particle_order_policy"@, "particle_spacing_m"@, 9));
    }
    assert(text_precedes("particle_spacing_m"@, "physical_rest_density_kg_m3"@)) by {
        reveal_strlit("particle_spacing_m");
        reveal_strlit("physical_rest_density_kg_m3");
        assert("particle_spacing_m"@.take(1) =~= "physical_rest_density_kg_m3"@.take(1));
        assert(text_precedes_at("particle_spacing_m"@, "physical_rest_density_kg_m3"@, 1));
    }
    assert(text_precedes("physical_rest_density_kg_m3"@, "relaxation_scale"@)) by {
        reveal_strlit("physical_rest_density_kg_m3");
        reveal_strlit("relaxation_scale");
        assert("physical_rest_density_kg_m3"@.take(0) =~= "relaxation_scale"@.take(0));
        assert(text_precedes_at("physical_rest_density_kg_m3"@, "relaxation_scale"@, 0));
    }
    assert(text_precedes("relaxation_scale"@, "scalar_precision"@)) by {
        reveal_strlit("relaxation_scale");
        reveal_strlit("scalar_precision");
        assert("relaxation_scale"@.take(0) =~= "scalar_precision"@.take(0));
        assert(text_precedes_at("relaxation_scale"@, "scalar_precision"@, 0));
    }
    assert(text_precedes("scalar_precision"@, "solver_iterations"@)) by {
        reveal_strlit("scalar_precision");
        reveal_strlit("solver_iterations");
        assert("scalar_precision"@.take(1) =~= "solver_iterations"@.take(1));
        assert(text_precedes_at("scalar_precision"@, "solver_iterations"@, 1));
    }
    assert(text_precedes("solver_iterations"@, "solver_update_policy"@)) by {
        reveal_strlit("solver_iterations");
        reveal_strlit("solver_update_policy");
        assert("solver_iterations"@.take(7) =~= "solver_update_policy"@.take(7));
        assert(text_precedes_at("solver_iterations"@, "solver_update_policy"@, 7));
    }
    assert(text_precedes("solver_update_policy"@, "support_policy"@)) by {
        reveal_strlit("solver_update_policy");
        reveal_strlit("support_policy");
        assert("solver_update_policy"@.take(1) =~= "support_policy"@.take(1));
        assert(text_precedes_at("solver_update_policy"@, "support_policy"@, 1));
    }
    assert(text_precedes("support_policy"@, "support_radius_ratio"@)) by {
        reveal_strlit("support_policy");
        reveal_strlit("support_radius_ratio");
        assert("support_policy"@.take(8) =~= "support_radius_ratio"@.take(8));
        assert(text_precedes_at("support_policy"@, "support_radius_ratio"@, 8));
    }
    assert(text_precedes("support_radius_ratio"@, "timestep_policy"@)) by {
        reveal_strlit("support_radius_ratio");
        reveal_strlit("timestep_policy");
        assert("support_radius_ratio"@.take(0) =~= "timestep_policy"@.take(0));
        assert(text_precedes_at("support_radius_ratio"@, "timestep_policy"@, 0));
    }
    assert(text_precedes("timestep_policy"@, "vorticity_confinement_enabled"@)) by {
        reveal_strlit("timestep_policy");
        reveal_strlit("vorticity_confinement_enabled");
        assert("timestep_policy"@.take(0) =~= "vorticity_confinement_enabled"@.take(0));
        assert(text_precedes_at("timestep_policy"@, "vorticity_confinement_enabled"@, 0));
    }
    assert(text_precedes("vorticity_confinement_enabled"@, "xsph_viscosity_enabled"@)) by {
        reveal_strlit("vorticity_confinement_enabled");
        reveal_strlit("xsph_viscosity_enabled");
        assert("vorticity_confinement_enabled"@.take(0) =~= "xsph_viscosity_enabled"@.take(0));
        assert(text_precedes_at("vorticity_confinement_enabled"@, "xsph_viscosity_enabled"@, 0));
    }
    assert forall|k: int|
        0 <= k < NUMERICAL_FIELD_COUNT - 1 implies text_precedes(
            field_name(#[trigger] order[k]),
            field_name(order[k + 1]),
        ) by {
        if k == 0 { assert(order[0] == NumericalField::ArtificialPressureEnabled && order[1] == NumericalField::ArtificialPressureExponent); }
        if k == 1 { assert(order[1] == NumericalField::ArtificialPressureExponent && order[2] == NumericalField::ArtificialPressureReferenceSeparationRatio); }
        if k == 2 { assert(order[2] == NumericalField::ArtificialPressureReferenceSeparationRatio && order[3] == NumericalField::ArtificialPressureStrengthScale); }
        if k == 3 { assert(order[3] == NumericalField::ArtificialPressureStrengthScale && order[4] == NumericalField::BoundaryModel); }
        if k == 4 { assert(order[4] == NumericalField::BoundaryModel && order[5] == NumericalField::CflFactor); }
        if k == 5 { assert(order[5] == NumericalField::CflFactor && order[6] == NumericalField::CoordinateSystem); }
        if k == 6 { assert(order[6] == NumericalField::CoordinateSystem && order[7] == NumericalField::CorrectionKernel); }
        if k == 7 { assert(order[7] == NumericalField::CorrectionKernel && order[8] == NumericalField::DensityKernel); }
        if k == 8 { assert(order[8] == NumericalField::DensityKernel && order[9] == NumericalField::ExternalAccelerationMS2); }
        if k == 9 { assert(order[9] == NumericalField::ExternalAccelerationMS2 && order[10] == NumericalField::FixedTimestepS); }
        if k == 10 { assert(order[10] == NumericalField::FixedTimestepS && order[11] == NumericalField::NeighbourRebuildPolicy); }
        if k == 11 { assert(order[11] == NumericalField::NeighbourRebuildPolicy && order[12] == NumericalField::ParticleOrderPolicy); }
        if k == 12 { assert(order[12] == NumericalField::ParticleOrderPolicy && order[13] == NumericalField::ParticleSpacingM); }
        if k == 13 { assert(order[13] == NumericalField::ParticleSpacingM && order[14] == NumericalField::PhysicalRestDensityKgM3); }
        if k == 14 { assert(order[14] == NumericalField::PhysicalRestDensityKgM3 && order[15] == NumericalField::RelaxationScale); }
        if k == 15 { assert(order[15] == NumericalField::RelaxationScale && order[16] == NumericalField::ScalarPrecision); }
        if k == 16 { assert(order[16] == NumericalField::ScalarPrecision && order[17] == NumericalField::SolverIterations); }
        if k == 17 { assert(order[17] == NumericalField::SolverIterations && order[18] == NumericalField::SolverUpdatePolicy); }
        if k == 18 { assert(order[18] == NumericalField::SolverUpdatePolicy && order[19] == NumericalField::SupportPolicy); }
        if k == 19 { assert(order[19] == NumericalField::SupportPolicy && order[20] == NumericalField::SupportRadiusRatio); }
        if k == 20 { assert(order[20] == NumericalField::SupportRadiusRatio && order[21] == NumericalField::TimestepPolicy); }
        if k == 21 { assert(order[21] == NumericalField::TimestepPolicy && order[22] == NumericalField::VorticityConfinementEnabled); }
        if k == 22 { assert(order[22] == NumericalField::VorticityConfinementEnabled && order[23] == NumericalField::XsphViscosityEnabled); }
    }
}

/// Each field stands at its own index of the declaration-order list.
pub proof fn lemma_declared_fields(field: NumericalField)
    ensures
        declared_fields().len() == NUMERICAL_FIELD_COUNT,
        0 <= field_index(field) < NUMERICAL_FIELD_COUNT,
        declared_fields()[field_index(field)] == field,
{
}

impl NumericalField {
    /// Returns the position of this field in declaration order.
    pub fn index(self) -> (r: usize)
        ensures
            r == field_index(self),
            r < NUMERICAL_FIELD_COUNT,
    {
        match self {
            NumericalField::ScalarPrecision => 0,
            NumericalField::CoordinateSystem => 1,
            NumericalField::TimestepPolicy => 2,
            NumericalField::DensityKernel => 3,
            NumericalField::CorrectionKernel => 4,
            NumericalField::SolverUpdatePolicy => 5,
            NumericalField::ExternalAccelerationMS2 => 6,
            NumericalField::FixedTimestepS => 7,
            NumericalField::CflFactor => 8,
            NumericalField::ParticleSpacingM => 9,
            NumericalField::SupportRadiusRatio => 10,
            NumericalField::PhysicalRestDensityKgM3 => 11,
            NumericalField::SolverIterations => 12,
            NumericalField::RelaxationScale => 13,
            NumericalField::ArtificialPressureEnabled => 14,
            NumericalField::ArtificialPressureStrengthScale => 15,
            NumericalField::ArtificialPressureReferenceSeparationRatio => 16,
            NumericalField::ArtificialPressureExponent => 17,
            NumericalField::SupportPolicy => 18,
            NumericalField::BoundaryModel => 19,
            NumericalField::NeighbourRebuildPolicy => 20,
            NumericalField::ParticleOrderPolicy => 21,
            NumericalField::XsphViscosityEnabled => 22,
            NumericalField::VorticityConfinementEnabled => 23,
        }
    }

    /// Returns the field's name as written in configuration documents.
    pub fn name(self) -> (r: &'static str)
        ensures
            r@ == field_name(self),
    {
        match self {
            NumericalField::ScalarPrecision => "scalar_precision",
            NumericalField::CoordinateSystem => "coordinate_system",
            NumericalField::TimestepPolicy => "timestep_policy",
            NumericalField::DensityKernel => "density_kernel",
            NumericalField::CorrectionKernel => "correction_kernel",
            NumericalField::SolverUpdatePolicy => "solver_update_policy",
            NumericalField::ExternalAccelerationMS2 => "external_acceleration_m_s2",
            NumericalField::FixedTimestepS => "fixed_timestep_s",
            NumericalField::CflFactor => "cfl_factor",
            NumericalField::ParticleSpacingM => "particle_spacing_m",
            NumericalField::SupportRadiusRatio => "support_radius_ratio",
            NumericalField::PhysicalRestDensityKgM3 => "physical_rest_density_kg_m3",
            NumericalField::SolverIterations => "solver_iterations",
            NumericalField::RelaxationScale => "relaxation_scale",
            NumericalField::ArtificialPressureEnabled => "artificial_pressure_enabled",
            NumericalField::ArtificialPressureStrengthScale => "artificial_pressure_strength_scale",
            NumericalField::ArtificialPressureReferenceSeparationRatio => "artificial_pressure_reference_separation_ratio",
            NumericalField::ArtificialPressureExponent => "artificial_pressure_exponent",
            NumericalField::SupportPolicy => "support_policy",
            NumericalField::BoundaryModel => "boundary_model",
            NumericalField::NeighbourRebuildPolicy => "neighbour_rebuild_policy",
            NumericalField::ParticleOrderPolicy => "particle_order_policy",
            NumericalField::XsphViscosityEnabled => "xsph_viscosity_enabled",
            NumericalField::VorticityConfinementEnabled => "vorticity_confinement_enabled",
        }
    }

    /// Returns every field in declaration order.
    pub fn all() -> (r: Vec<NumericalField>)
        ensures
            r@ == declared_fields(),
    {
        let mut fields: Vec<NumericalField> = Vec::new();
        fields.push(NumericalField::ScalarPrecision);
        fields.push(NumericalField::CoordinateSystem);
        fields.push(NumericalField::TimestepPolicy);
        fields.push(NumericalField::DensityKernel);
        fields.push(NumericalField::CorrectionKernel);
        fields.push(NumericalField::SolverUpdatePolicy);
        fields.push(NumericalField::ExternalAccelerationMS2);
        fields.push(NumericalField::FixedTimestepS);
        fields.push(NumericalField::CflFactor);
        fields.push(NumericalField::ParticleSpacingM);
        fields.push(NumericalField::SupportRadiusRatio);
        fields.push(NumericalField::PhysicalRestDensityKgM3);
        fields.push(NumericalField::SolverIterations);
        fields.push(NumericalField::RelaxationScale);
        fields.push(NumericalField::ArtificialPressureEnabled);
        fields.push(NumericalField::ArtificialPressureStrengthScale);
        fields.push(NumericalField::ArtificialPressureReferenceSeparationRatio);
        fields.push(NumericalField::ArtificialPressureExponent);
        fields.push(NumericalField::SupportPolicy);
        fields.push(NumericalField::BoundaryModel);
        fields.push(NumericalField::NeighbourRebuildPolicy);
        fields.push(NumericalField::ParticleOrderPolicy);
        fields.push(NumericalField::XsphViscosityEnabled);
        fields.push(NumericalField::VorticityConfinementEnabled);
        assert(fields@ =~= declared_fields());
        fields
    }

    /// Returns every field in ascending byte order of its name, the order in
    /// which provenance is listed.
    pub fn all_in_name_order() -> (r: Vec<NumericalField>)
        ensures
            r@ == fields_in_name_order(),
    {
        let mut fields: Vec<NumericalField> = Vec::new();
        fields.push(NumericalField::ArtificialPressureEnabled);
        fields.push(NumericalField::ArtificialPressureExponent);
        fields.push(NumericalField::ArtificialPressureReferenceSeparationRatio);
        fields.push(NumericalField::ArtificialPressureStrengthScale);
        fields.push(NumericalField::BoundaryModel);
        fields.push(NumericalField::CflFactor);
        fields.push(NumericalField::CoordinateSystem);
        fields.push(NumericalField::CorrectionKernel);
        fields.push(NumericalField::DensityKernel);
        fields.push(NumericalField::ExternalAccelerationMS2);
        fields.push(NumericalField::FixedTimestepS);
        fields.push(NumericalField::NeighbourRebuildPolicy);
        fields.push(NumericalField::ParticleOrderPolicy);
        fields.push(NumericalField::ParticleSpacingM);
        fields.push(NumericalField::PhysicalRestDensityKgM3);
        fields.push(NumericalField::RelaxationScale);
        fields.push(NumericalField::ScalarPrecision);
        fields.push(NumericalField::SolverIterations);
        fields.push(NumericalField::SolverUpdatePolicy);
        fields.push(NumericalField::SupportPolicy);
        fields.push(NumericalField::SupportRadiusRatio);
        fields.push(NumericalField::TimestepPolicy);
        fields.push(NumericalField::VorticityConfinementEnabled);
        fields.push(NumericalField::XsphViscosityEnabled);
        assert(fields@ =~= fields_in_name_order());
        fields
    }

    /// Returns the field with the given name, if there is one.
    pub fn from_name(name: &str) -> (r: Option<NumericalField>)
        ensures
            r matches Some(field) ==> field_name(field) == name@,
            r is None ==> forall|field: NumericalField| field_name(field) != name@,
    {
        let fields = NumericalField::all();
        let mut i: usize = 0;
        while i < fields.len()
            invariant
                fields@ == declared_fields(),
                i <= fields@.len(),
                forall|j: int| 0 <= j < i ==> field_name(#[trigger] fields@[j]) != name@,
            decreases fields@.len() - i,
        {
            let field = fields[i];
            if crate::text::same_text(field.name(), name) {
                return Some(field);
            }
            i = i + 1;
        }
        assert forall|field: NumericalField| field_name(field) != name@ by {
            lemma_declared_fields(field);
            assert(field_name(fields@[field_index(field)]) != name@);
        }
        None
    }
}

/// The source recorded for a field after one layer is applied: the layer's
/// own source when it supplies the field, otherwise the earlier source.
pub open spec fn layered_source(
    earlier: FieldSource,
    supplied: Seq<NumericalField>,
    source: FieldSource,
    field: NumericalField,
) -> FieldSource {
    if supplied.contains(field) {
        source
    } else {
        earlier
    }
}

/// ### Deterministic field-by-field provenance for a resolved numerical model
///
/// Records, for every [`NumericalField`], the layer that supplied its value.
#[derive(Debug, PartialEq, Eq)]
pub struct ValueSources {
    sources: Vec<FieldSource>,
}

/// Provenance before any layer is applied: every field comes from the
/// built-in defaults.
pub fn default_sources() -> (r: ValueSources)
    ensures
        forall|field: NumericalField| #[trigger] r.source(field) == FieldSource::BuiltInDefault,
{
    let mut sources: Vec<FieldSource> = Vec::new();
    let mut i: usize = 0;
    while i < NUMERICAL_FIELD_COUNT
        invariant
            i <= NUMERICAL_FIELD_COUNT,
            sources@.len() == i,
            forall|j: int| 0 <= j < i ==> sources@[j] == FieldSource::BuiltInDefault,
        decreases NUMERICAL_FIELD_COUNT - i,
    {
        sources.push(FieldSource::BuiltInDefault);
        i = i + 1;
    }
    let r = ValueSources { sources };
    assert forall|field: NumericalField| #[trigger] r.source(field)
        == FieldSource::BuiltInDefault by {
        lemma_declared_fields(field);
    }
    r
}

impl ValueSources {
    #[verifier::type_invariant]
    spec fn complete(self) -> bool {
        self.sources@.len() == NUMERICAL_FIELD_COUNT
    }

    /// The layer recorded for `field`.
    pub closed spec fn source(&self, field: NumericalField) -> FieldSource {
        self.sources@[field_index(field)]
    }

    /// Returns the number of recorded fields.
    pub fn len(&self) -> (r: usize)
        ensures
            r == NUMERICAL_FIELD_COUNT,
    {
        proof {
            use_type_invariant(self);
        }
        self.sources.len()
    }

    /// Returns the layer that supplied `field`.
    pub fn get(&self, field: NumericalField) -> (r: FieldSource)
        ensures
            r == self.source(field),
    {
        proof {
            use_type_invariant(self);
        }
        self.sources[field.index()]
    }

    /// Returns the layer that supplied the field named `name`, or `None` when
    /// no numerical field has that name.
    pub fn get_by_name(&self, name: &str) -> (r: Option<FieldSource>)
        ensures
            r is None <==> forall|field: NumericalField| field_name(field) != name@,
            r matches Some(source) ==> exists|field: NumericalField|
                field_name(field) == name@ && #[trigger] self.source(field) == source,
    {
        match NumericalField::from_name(name) {
            Some(field) => Some(self.get(field)),
            None => None,
        }
    }

    /// Records that `source` supplied `field`.
    pub fn record(&mut self, field: NumericalField, source: FieldSource)
        ensures
            forall|other: NumericalField| #[trigger] final(self).source(other) == if other == field {
                source
            } else {
                old(self).source(other)
            },
    {
        proof {
            use_type_invariant(&*self);
        }
        let index = field.index();
        let mut sources: Vec<FieldSource> = Vec::new();
        let mut i: usize = 0;
        while i < self.sources.len()
            invariant
                i <= self.sources@.len(),
                self.sources@.len() == NUMERICAL_FIELD_COUNT,
                index < NUMERICAL_FIELD_COUNT,
                sources@.len() == i,
                forall|j: int| 0 <= j < i ==> sources@[j] == if j == index {
                    source
                } else {
                    self.sources@[j]
                },
            decreases self.sources@.len() - i,
        {
            if i == index {
                sources.push(source);
            } else {
                sources.push(self.sources[i]);
            }
            i = i + 1;
        }
        self.sources = sources;
        assert forall|other: NumericalField| #[trigger] self.source(other) == if other == field {
            source
        } else {
            old(self).source(other)
        } by {
            lemma_declared_fields(other);
            lemma_declared_fields(field);
            if other != field {
                assert(field_index(other) != field_index(field));
            }
        }
    }

    /// Records one layer: every field in `supplied` now comes from `source`,
    /// every other field keeps its earlier source.
    pub fn record_layer(&mut self, supplied: &[NumericalField], source: FieldSource)
        ensures
            forall|field: NumericalField| #[trigger] final(self).source(field) == layered_source(
                old(self).source(field),
                supplied@,
                source,
                field,
            ),
    {
        let mut k: usize = 0;
        while k < supplied.len()
            invariant
                k <= supplied@.len(),
                forall|field: NumericalField| #[trigger] self.source(field) == layered_source(
                    old(self).source(field),
                    supplied@.take(k as int),
                    source,
                    field,
                ),
            decreases supplied@.len() - k,
        {
            let field = supplied[k];
            self.record(field, source);
            assert forall|other: NumericalField| #[trigger] self.source(other) == layered_source(
                old(self).source(other),
                supplied@.take(k + 1),
                source,
                other,
            ) by {
                assert(supplied@.take(k + 1) =~= supplied@.take(k as int).push(field));
                if supplied@.take(k as int).contains(other) {
                    let i = choose|i: int| 0 <= i < k && supplied@.take(k as int)[i] == other;
                    assert(supplied@.take(k + 1)[i] == other);
                }
                if other == field {
                    assert(supplied@.take(k + 1)[k as int] == other);
                }
            }
            k = k + 1;
        }
        assert(supplied@.take(supplied@.len() as int) =~= supplied@);
    }
}

impl Clone for ValueSources {
    fn clone(&self) -> (r: Self)
        ensures
            forall|field: NumericalField| #[trigger] r.source(field) == self.source(field),
    {
        proof {
            use_type_invariant(self);
        }
        let mut sources: Vec<FieldSource> = Vec::new();
        let mut i: usize = 0;
        while i < self.sources.len()
            invariant
                i <= self.sources@.len(),
                self.sources@.len() == NUMERICAL_FIELD_COUNT,
                sources@ == self.sources@.take(i as int),
            decreases self.sources@.len() - i,
        {
            sources.push(self.sources[i]);
            assert(sources@ =~= self.sources@.take(i + 1));
            i = i + 1;
        }
        assert(sources@ =~= self.sources@);
        ValueSources { sources }
    }
}

/// ### Later layers take precedence field by field
///
/// With layers applied in their fixed order (configuration file, scene,
/// command line) over the built-in defaults, each field's provenance is the
/// last layer that supplied it, or the built-in default when none did.
pub proof fn lemma_provenance_follows_precedence(
    file: Seq<NumericalField>,
    scene: Seq<NumericalField>,
    command_line: Seq<NumericalField>,
    field: NumericalField,
)
    ensures
        layered_source(
            layered_source(
                layered_source(FieldSource::BuiltInDefault, file, FieldSource::ConfigurationFile, field),
                scene,
                FieldSource::Scene,
                field,
            ),
            command_line,
            FieldSource::CommandLine,
            field,
        ) == if command_line.contains(field) {
            FieldSource::CommandLine
        } else if scene.contains(field) {
            FieldSource::Scene
        } else if file.contains(field) {
            FieldSource::ConfigurationFile
        } else {
            FieldSource::BuiltInDefault
        },
{
}

#[verifier::external_type_specification]
#[verifier::external_body]
pub struct ExIoErrorKind(std::io::ErrorKind);

/// Configuration parsing, validation, derivation or inspection failure.
///
/// Scalar values are carried as the IEEE-754 bit patterns of their binary32 values.
#[derive(Debug)]
pub enum ConfigError {
    /// A configuration document could not be read or written.
    Io {
        /// Kind of document involved in the operation.
        document: &'static str,
        /// Filesystem operation that failed.
        operation: &'static str,
        /// Operating-system error kind.
        kind: std::io::ErrorKind,
    },
    /// TOML input could not be parsed.
    Parse {
        /// Kind of document that could not be parsed.
        document: &'static str,
        /// Parser diagnostic explaining the failure.
        message: String,
    },
    /// A document declares an unsupported schema version.
    UnsupportedSchema {
        /// Kind of document declaring the unsupported version.
        document: &'static str,
        /// Schema version supported by this build.
        supported: u32,
        /// Schema version declared by the document.
        found: u32,
    },
    /// A named field violates its supported domain or policy.
    InvalidField {
        /// Name of the invalid field.
        field: &'static str,
        /// Explanation of the failed validation rule.
        reason: String,
    },
    /// A supplied derived assertion differs from the authoritative value.
    DerivedMismatch {
        /// Overlay layer that supplied the assertion.
        layer: &'static str,
        /// Name of the derived field.
        field: &'static str,
        /// Bits of the authoritative derived binary32 value.
        expected: u32,
        /// Bits of the derived assertion supplied by the overlay.
        provided: u32,
    },
    /// A numerical operation required while resolving configuration failed.
    Numerical(NumericalError),
}

} // verus!

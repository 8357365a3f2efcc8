//! # Configuration layers
//!
//! A layer supplies some numerical values; applying it replaces exactly those
//! values and records the layer as their source. Binary32 values are carried
//! as their IEEE-754 bit patterns, so a value is replaced bit for bit.

use vstd::prelude::*;

use super::resolved::{
    FieldSource, NumericalField, ValueSources, declared_fields, field_index, lemma_declared_fields,
};

verus! {

/// ### A numerical model
///
/// Binary32 values are given by their bit patterns.
#[derive(Debug)]
pub struct NumericalValues {
    /// The `scalar_precision` policy.
    pub scalar_precision: String,
    /// The `coordinate_system` policy.
    pub coordinate_system: String,
    /// The `timestep_policy` policy.
    pub timestep_policy: String,
    /// The `density_kernel` policy.
    pub density_kernel: String,
    /// The `correction_kernel` policy.
    pub correction_kernel: String,
    /// The `solver_update_policy` policy.
    pub solver_update_policy: String,
    /// The bit patterns of the `external_acceleration_m_s2` components.
    pub external_acceleration_m_s2_bits: [u32; 3],
    /// The bit pattern of the binary32 `fixed_timestep_s` value.
    pub fixed_timestep_s_bits: u32,
    /// The bit pattern of the binary32 `cfl_factor` value.
    pub cfl_factor_bits: u32,
    /// The bit pattern of the binary32 `particle_spacing_m` value.
    pub particle_spacing_m_bits: u32,
    /// The bit pattern of the binary32 `support_radius_ratio` value.
    pub support_radius_ratio_bits: u32,
    /// The bit pattern of the binary32 `physical_rest_density_kg_m3` value.
    pub physical_rest_density_kg_m3_bits: u32,
    /// The solver iteration count.
    pub solver_iterations: u32,
    /// The bit pattern of the binary32 `relaxation_scale` value.
    pub relaxation_scale_bits: u32,
    /// The `artificial_pressure_enabled` switch.
    pub artificial_pressure_enabled: bool,
    /// The bit pattern of the binary32 `artificial_pressure_strength_scale` value.
    pub artificial_pressure_strength_scale_bits: u32,
    /// The bit pattern of the binary32 `artificial_pressure_reference_separation_ratio` value.
    pub artificial_pressure_reference_separation_ratio_bits: u32,
    /// The bit pattern of the binary32 `artificial_pressure_exponent` value.
    pub artificial_pressure_exponent_bits: u32,
    /// The `support_policy` policy.
    pub support_policy: String,
    /// The `boundary_model` policy.
    pub boundary_model: String,
    /// The `neighbour_rebuild_policy` policy.
    pub neighbour_rebuild_policy: String,
    /// The `particle_order_policy` policy.
    pub particle_order_policy: String,
    /// The `xsph_viscosity_enabled` switch.
    pub xsph_viscosity_enabled: bool,
    /// The `vorticity_confinement_enabled` switch.
    pub vorticity_confinement_enabled: bool,
}

/// ### The numerical values supplied by one layer
///
/// A field is `None` when the layer leaves it unchanged.
#[derive(Debug)]
pub struct NumericalOverlay {
    /// The `scalar_precision` policy.
    pub scalar_precision: Option<String>,
    /// The `coordinate_system` policy.
    pub coordinate_system: Option<String>,
    /// The `timestep_policy` policy.
    pub timestep_policy: Option<String>,
    /// The `density_kernel` policy.
    pub density_kernel: Option<String>,
    /// The `correction_kernel` policy.
    pub correction_kernel: Option<String>,
    /// The `solver_update_policy` policy.
    pub solver_update_policy: Option<String>,
    /// The bit patterns of the `external_acceleration_m_s2` components.
    pub external_acceleration_m_s2_bits: Option<[u32; 3]>,
    /// The bit pattern of the binary32 `fixed_timestep_s` value.
    pub fixed_timestep_s_bits: Option<u32>,
    /// The bit pattern of the binary32 `cfl_factor` value.
    pub cfl_factor_bits: Option<u32>,
    /// The bit pattern of the binary32 `particle_spacing_m` value.
    pub particle_spacing_m_bits: Option<u32>,
    /// The bit pattern of the binary32 `support_radius_ratio` value.
    pub support_radius_ratio_bits: Option<u32>,
    /// The bit pattern of the binary32 `physical_rest_density_kg_m3` value.
    pub physical_rest_density_kg_m3_bits: Option<u32>,
    /// The solver iteration count.
    pub solver_iterations: Option<u32>,
    /// The bit pattern of the binary32 `relaxation_scale` value.
    pub relaxation_scale_bits: Option<u32>,
    /// The `artificial_pressure_enabled` switch.
    pub artificial_pressure_enabled: Option<bool>,
    /// The bit pattern of the binary32 `artificial_pressure_strength_scale` value.
    pub artificial_pressure_strength_scale_bits: Option<u32>,
    /// The bit pattern of the binary32 `artificial_pressure_reference_separation_ratio` value.
    pub artificial_pressure_reference_separation_ratio_bits: Option<u32>,
    /// The bit pattern of the binary32 `artificial_pressure_exponent` value.
    pub artificial_pressure_exponent_bits: Option<u32>,
    /// The `support_policy` policy.
    pub support_policy: Option<String>,
    /// The `boundary_model` policy.
    pub boundary_model: Option<String>,
    /// The `neighbour_rebuild_policy` policy.
    pub neighbour_rebuild_policy: Option<String>,
    /// The `particle_order_policy` policy.
    pub particle_order_policy: Option<String>,
    /// The `xsph_viscosity_enabled` switch.
    pub xsph_viscosity_enabled: Option<bool>,
    /// The `vorticity_confinement_enabled` switch.
    pub vorticity_confinement_enabled: Option<bool>,
}

/// `supplied` when it is present, otherwise `earlier`.
pub open spec fn overridden<T>(earlier: T, supplied: Option<T>) -> T {
    match supplied {
        Some(value) => value,
        None => earlier,
    }
}

/// The model after `overlay` is applied to `model`.
pub open spec fn overlaid(model: NumericalValues, overlay: NumericalOverlay) -> NumericalValues {
    NumericalValues {
        scalar_precision: overridden(model.scalar_precision, overlay.scalar_precision),
        coordinate_system: overridden(model.coordinate_system, overlay.coordinate_system),
        timestep_policy: overridden(model.timestep_policy, overlay.timestep_policy),
        density_kernel: overridden(model.density_kernel, overlay.density_kernel),
        correction_kernel: overridden(model.correction_kernel, overlay.correction_kernel),
        solver_update_policy: overridden(model.solver_update_policy, overlay.solver_update_policy),
        external_acceleration_m_s2_bits: overridden(model.external_acceleration_m_s2_bits, overlay.external_acceleration_m_s2_bits),
        fixed_timestep_s_bits: overridden(model.fixed_timestep_s_bits, overlay.fixed_timestep_s_bits),
        cfl_factor_bits: overridden(model.cfl_factor_bits, overlay.cfl_factor_bits),
        particle_spacing_m_bits: overridden(model.particle_spacing_m_bits, overlay.particle_spacing_m_bits),
        support_radius_ratio_bits: overridden(model.support_radius_ratio_bits, overlay.support_radius_ratio_bits),
        physical_rest_density_kg_m3_bits: overridden(model.physical_rest_density_kg_m3_bits, overlay.physical_rest_density_kg_m3_bits),
        solver_iterations: overridden(model.solver_iterations, overlay.solver_iterations),
        relaxation_scale_bits: overridden(model.relaxation_scale_bits, overlay.relaxation_scale_bits),
        artificial_pressure_enabled: overridden(model.artificial_pressure_enabled, overlay.artificial_pressure_enabled),
        artificial_pressure_strength_scale_bits: overridden(model.artificial_pressure_strength_scale_bits, overlay.artificial_pressure_strength_scale_bits),
        artificial_pressure_reference_separation_ratio_bits: overridden(model.artificial_pressure_reference_separation_ratio_bits, overlay.artificial_pressure_reference_separation_ratio_bits),
        artificial_pressure_exponent_bits: overridden(model.artificial_pressure_exponent_bits, overlay.artificial_pressure_exponent_bits),
        support_policy: overridden(model.support_policy, overlay.support_policy),
        boundary_model: overridden(model.boundary_model, overlay.boundary_model),
        neighbour_rebuild_policy: overridden(model.neighbour_rebuild_policy, overlay.neighbour_rebuild_policy),
        particle_order_policy: overridden(model.particle_order_policy, overlay.particle_order_policy),
        xsph_viscosity_enabled: overridden(model.xsph_viscosity_enabled, overlay.xsph_viscosity_enabled),
        vorticity_confinement_enabled: overridden(model.vorticity_confinement_enabled, overlay.vorticity_confinement_enabled),
    }
}

/// Whether `overlay` supplies a value for `field`.
pub open spec fn field_supplied(overlay: NumericalOverlay, field: NumericalField) -> bool {
    match field {
        NumericalField::ScalarPrecision => overlay.scalar_precision is Some,
        NumericalField::CoordinateSystem => overlay.coordinate_system is Some,
        NumericalField::TimestepPolicy => overlay.timestep_policy is Some,
        NumericalField::DensityKernel => overlay.density_kernel is Some,
        NumericalField::CorrectionKernel => overlay.correction_kernel is Some,
        NumericalField::SolverUpdatePolicy => overlay.solver_update_policy is Some,
        NumericalField::ExternalAccelerationMS2 => overlay.external_acceleration_m_s2_bits is Some,
        NumericalField::FixedTimestepS => overlay.fixed_timestep_s_bits is Some,
        NumericalField::CflFactor => overlay.cfl_factor_bits is Some,
        NumericalField::ParticleSpacingM => overlay.particle_spacing_m_bits is Some,
        NumericalField::SupportRadiusRatio => overlay.support_radius_ratio_bits is Some,
        NumericalField::PhysicalRestDensityKgM3 => overlay.physical_rest_density_kg_m3_bits is Some,
        NumericalField::SolverIterations => overlay.solver_iterations is Some,
        NumericalField::RelaxationScale => overlay.relaxation_scale_bits is Some,
        NumericalField::ArtificialPressureEnabled => overlay.artificial_pressure_enabled is Some,
        NumericalField::ArtificialPressureStrengthScale => overlay.artificial_pressure_strength_scale_bits is Some,
        NumericalField::ArtificialPressureReferenceSeparationRatio => overlay.artificial_pressure_reference_separation_ratio_bits is Some,
        NumericalField::ArtificialPressureExponent => overlay.artificial_pressure_exponent_bits is Some,
        NumericalField::SupportPolicy => overlay.support_policy is Some,
        NumericalField::BoundaryModel => overlay.boundary_model is Some,
        NumericalField::NeighbourRebuildPolicy => overlay.neighbour_rebuild_policy is Some,
        NumericalField::ParticleOrderPolicy => overlay.particle_order_policy is Some,
        NumericalField::XsphViscosityEnabled => overlay.xsph_viscosity_enabled is Some,
        NumericalField::VorticityConfinementEnabled => overlay.vorticity_confinement_enabled is Some,
    }
}

fn supplies(overlay: &NumericalOverlay, field: NumericalField) -> (r: bool)
    ensures
        r == field_supplied(*overlay, field),
{
    match field {
        NumericalField::ScalarPrecision => overlay.scalar_precision.is_some(),
        NumericalField::CoordinateSystem => overlay.coordinate_system.is_some(),
        NumericalField::TimestepPolicy => overlay.timestep_policy.is_some(),
        NumericalField::DensityKernel => overlay.density_kernel.is_some(),
        NumericalField::CorrectionKernel => overlay.correction_kernel.is_some(),
        NumericalField::SolverUpdatePolicy => overlay.solver_update_policy.is_some(),
        NumericalField::ExternalAccelerationMS2 => overlay.external_acceleration_m_s2_bits.is_some(),
        NumericalField::FixedTimestepS => overlay.fixed_timestep_s_bits.is_some(),
        NumericalField::CflFactor => overlay.cfl_factor_bits.is_some(),
        NumericalField::ParticleSpacingM => overlay.particle_spacing_m_bits.is_some(),
        NumericalField::SupportRadiusRatio => overlay.support_radius_ratio_bits.is_some(),
        NumericalField::PhysicalRestDensityKgM3 => overlay.physical_rest_density_kg_m3_bits.is_some(),
        NumericalField::SolverIterations => overlay.solver_iterations.is_some(),
        NumericalField::RelaxationScale => overlay.relaxation_scale_bits.is_some(),
        NumericalField::ArtificialPressureEnabled => overlay.artificial_pressure_enabled.is_some(),
        NumericalField::ArtificialPressureStrengthScale => overlay.artificial_pressure_strength_scale_bits.is_some(),
        NumericalField::ArtificialPressureReferenceSeparationRatio => overlay.artificial_pressure_reference_separation_ratio_bits.is_some(),
        NumericalField::ArtificialPressureExponent => overlay.artificial_pressure_exponent_bits.is_some(),
        NumericalField::SupportPolicy => overlay.support_policy.is_some(),
        NumericalField::BoundaryModel => overlay.boundary_model.is_some(),
        NumericalField::NeighbourRebuildPolicy => overlay.neighbour_rebuild_policy.is_some(),
        NumericalField::ParticleOrderPolicy => overlay.particle_order_policy.is_some(),
        NumericalField::XsphViscosityEnabled => overlay.xsph_viscosity_enabled.is_some(),
        NumericalField::VorticityConfinementEnabled => overlay.vorticity_confinement_enabled.is_some(),
    }
}

fn supplied_list(overlay: &NumericalOverlay) -> (r: Vec<NumericalField>)
    ensures
        forall|field: NumericalField| #[trigger] r@.contains(field) <==> field_supplied(*overlay, field),
{
    let all = NumericalField::all();
    let mut supplied: Vec<NumericalField> = Vec::new();
    let mut k: usize = 0;
    while k < all.len()
        invariant
            k <= all@.len(),
            all@ == declared_fields(),
            forall|field: NumericalField| #[trigger] supplied@.contains(field) <==> (field_supplied(
                *overlay,
                field,
            ) && exists|j: int| 0 <= j < k && declared_fields()[j] == field),
        decreases all@.len() - k,
    {
        let field = all[k];
        let ghost before = supplied@;
        if supplies(overlay, field) {
            supplied.push(field);
        }
        assert forall|f: NumericalField| #[trigger] supplied@.contains(f) <==> (field_supplied(
            *overlay,
            f,
        ) && exists|j: int| 0 <= j < k + 1 && declared_fields()[j] == f) by {
            if supplied@.contains(f) {
                if !before.contains(f) {
                    let i = choose|i: int| 0 <= i < supplied@.len() && supplied@[i] == f;
                    if i < before.len() {
                        assert(before[i] == f);
                    }
                    assert(declared_fields()[k as int] == f);
                }
            }
            if field_supplied(*overlay, f) && exists|j: int| 0 <= j < k + 1 && declared_fields()[j] == f {
                let j = choose|j: int| 0 <= j < k + 1 && declared_fields()[j] == f;
                if j < k {
                    assert(before.contains(f));
                    let i = choose|i: int| 0 <= i < before.len() && before[i] == f;
                    assert(supplied@[i] == f);
                } else {
                    assert(supplied@[supplied@.len() - 1] == f);
                }
            }
        }
        k = k + 1;
    }
    proof {
        assert forall|field: NumericalField| field_supplied(*overlay, field) implies #[trigger] supplied@.contains(field) by {
            lemma_declared_fields(field);
            assert(declared_fields()[field_index(field)] == field);
        }
    }
    supplied
}

fn replace_when_supplied<T>(slot: &mut T, supplied: Option<T>)
    ensures
        *final(slot) == overridden(*old(slot), supplied),
{
    if let Some(value) = supplied {
        *slot = value;
    }
}

/// ### A layer supplies a value exactly for the fields it names
///
/// Each field of the model after a layer is applied is the layer's value
/// when the layer supplies one, and the earlier value otherwise.
pub proof fn lemma_layer_values(model: NumericalValues, overlay: NumericalOverlay)
    ensures
        overlay.scalar_precision matches Some(value) ==> overlaid(model, overlay).scalar_precision == value,
        overlay.scalar_precision is None ==> overlaid(model, overlay).scalar_precision == model.scalar_precision,
        overlay.coordinate_system matches Some(value) ==> overlaid(model, overlay).coordinate_system == value,
        overlay.coordinate_system is None ==> overlaid(model, overlay).coordinate_system == model.coordinate_system,
        overlay.timestep_policy matches Some(value) ==> overlaid(model, overlay).timestep_policy == value,
        overlay.timestep_policy is None ==> overlaid(model, overlay).timestep_policy == model.timestep_policy,
        overlay.density_kernel matches Some(value) ==> overlaid(model, overlay).density_kernel == value,
        overlay.density_kernel is None ==> overlaid(model, overlay).density_kernel == model.density_kernel,
        overlay.correction_kernel matches Some(value) ==> overlaid(model, overlay).correction_kernel == value,
        overlay.correction_kernel is None ==> overlaid(model, overlay).correction_kernel == model.correction_kernel,
        overlay.solver_update_policy matches Some(value) ==> overlaid(model, overlay).solver_update_policy == value,
        overlay.solver_update_policy is None ==> overlaid(model, overlay).solver_update_policy == model.solver_update_policy,
        overlay.external_acceleration_m_s2_bits matches Some(value) ==> overlaid(model, overlay).external_acceleration_m_s2_bits == value,
        overlay.external_acceleration_m_s2_bits is None ==> overlaid(model, overlay).external_acceleration_m_s2_bits == model.external_acceleration_m_s2_bits,
        overlay.fixed_timestep_s_bits matches Some(value) ==> overlaid(model, overlay).fixed_timestep_s_bits == value,
        overlay.fixed_timestep_s_bits is None ==> overlaid(model, overlay).fixed_timestep_s_bits == model.fixed_timestep_s_bits,
        overlay.cfl_factor_bits matches Some(value) ==> overlaid(model, overlay).cfl_factor_bits == value,
        overlay.cfl_factor_bits is None ==> overlaid(model, overlay).cfl_factor_bits == model.cfl_factor_bits,
        overlay.particle_spacing_m_bits matches Some(value) ==> overlaid(model, overlay).particle_spacing_m_bits == value,
        overlay.particle_spacing_m_bits is None ==> overlaid(model, overlay).particle_spacing_m_bits == model.particle_spacing_m_bits,
        overlay.support_radius_ratio_bits matches Some(value) ==> overlaid(model, overlay).support_radius_ratio_bits == value,
        overlay.support_radius_ratio_bits is None ==> overlaid(model, overlay).support_radius_ratio_bits == model.support_radius_ratio_bits,
        overlay.physical_rest_density_kg_m3_bits matches Some(value) ==> overlaid(model, overlay).physical_rest_density_kg_m3_bits == value,
        overlay.physical_rest_density_kg_m3_bits is None ==> overlaid(model, overlay).physical_rest_density_kg_m3_bits == model.physical_rest_density_kg_m3_bits,
        overlay.solver_iterations matches Some(value) ==> overlaid(model, overlay).solver_iterations == value,
        overlay.solver_iterations is None ==> overlaid(model, overlay).solver_iterations == model.solver_iterations,
        overlay.relaxation_scale_bits matches Some(value) ==> overlaid(model, overlay).relaxation_scale_bits == value,
        overlay.relaxation_scale_bits is None ==> overlaid(model, overlay).relaxation_scale_bits == model.relaxation_scale_bits,
        overlay.artificial_pressure_enabled matches Some(value) ==> overlaid(model, overlay).artificial_pressure_enabled == value,
        overlay.artificial_pressure_enabled is None ==> overlaid(model, overlay).artificial_pressure_enabled == model.artificial_pressure_enabled,
        overlay.artificial_pressure_strength_scale_bits matches Some(value) ==> overlaid(model, overlay).artificial_pressure_strength_scale_bits == value,
        overlay.artificial_pressure_strength_scale_bits is None ==> overlaid(model, overlay).artificial_pressure_strength_scale_bits == model.artificial_pressure_strength_scale_bits,
        overlay.artificial_pressure_reference_separation_ratio_bits matches Some(value) ==> overlaid(model, overlay).artificial_pressure_reference_separation_ratio_bits == value,
        overlay.artificial_pressure_reference_separation_ratio_bits is None ==> overlaid(model, overlay).artificial_pressure_reference_separation_ratio_bits == model.artificial_pressure_reference_separation_ratio_bits,
        overlay.artificial_pressure_exponent_bits matches Some(value) ==> overlaid(model, overlay).artificial_pressure_exponent_bits == value,
        overlay.artificial_pressure_exponent_bits is None ==> overlaid(model, overlay).artificial_pressure_exponent_bits == model.artificial_pressure_exponent_bits,
        overlay.support_policy matches Some(value) ==> overlaid(model, overlay).support_policy == value,
        overlay.support_policy is None ==> overlaid(model, overlay).support_policy == model.support_policy,
        overlay.boundary_model matches Some(value) ==> overlaid(model, overlay).boundary_model == value,
        overlay.boundary_model is None ==> overlaid(model, overlay).boundary_model == model.boundary_model,
        overlay.neighbour_rebuild_policy matches Some(value) ==> overlaid(model, overlay).neighbour_rebuild_policy == value,
        overlay.neighbour_rebuild_policy is None ==> overlaid(model, overlay).neighbour_rebuild_policy == model.neighbour_rebuild_policy,
        overlay.particle_order_policy matches Some(value) ==> overlaid(model, overlay).particle_order_policy == value,
        overlay.particle_order_policy is None ==> overlaid(model, overlay).particle_order_policy == model.particle_order_policy,
        overlay.xsph_viscosity_enabled matches Some(value) ==> overlaid(model, overlay).xsph_viscosity_enabled == value,
        overlay.xsph_viscosity_enabled is None ==> overlaid(model, overlay).xsph_viscosity_enabled == model.xsph_viscosity_enabled,
        overlay.vorticity_confinement_enabled matches Some(value) ==> overlaid(model, overlay).vorticity_confinement_enabled == value,
        overlay.vorticity_confinement_enabled is None ==> overlaid(model, overlay).vorticity_confinement_enabled == model.vorticity_confinement_enabled,
{
}

/// ### A layer is the recorded source of exactly the values it supplies
pub proof fn lemma_supplied_fields(overlay: NumericalOverlay)
    ensures
        field_supplied(overlay, NumericalField::ScalarPrecision) <==> overlay.scalar_precision is Some,
        field_supplied(overlay, NumericalField::CoordinateSystem) <==> overlay.coordinate_system is Some,
        field_supplied(overlay, NumericalField::TimestepPolicy) <==> overlay.timestep_policy is Some,
        field_supplied(overlay, NumericalField::DensityKernel) <==> overlay.density_kernel is Some,
        field_supplied(overlay, NumericalField::CorrectionKernel) <==> overlay.correction_kernel is Some,
        field_supplied(overlay, NumericalField::SolverUpdatePolicy) <==> overlay.solver_update_policy is Some,
        field_supplied(overlay, NumericalField::ExternalAccelerationMS2) <==> overlay.external_acceleration_m_s2_bits is Some,
        field_supplied(overlay, NumericalField::FixedTimestepS) <==> overlay.fixed_timestep_s_bits is Some,
        field_supplied(overlay, NumericalField::CflFactor) <==> overlay.cfl_factor_bits is Some,
        field_supplied(overlay, NumericalField::ParticleSpacingM) <==> overlay.particle_spacing_m_bits is Some,
        field_supplied(overlay, NumericalField::SupportRadiusRatio) <==> overlay.support_radius_ratio_bits is Some,
        field_supplied(overlay, NumericalField::PhysicalRestDensityKgM3) <==> overlay.physical_rest_density_kg_m3_bits is Some,
        field_supplied(overlay, NumericalField::SolverIterations) <==> overlay.solver_iterations is Some,
        field_supplied(overlay, NumericalField::RelaxationScale) <==> overlay.relaxation_scale_bits is Some,
        field_supplied(overlay, NumericalField::ArtificialPressureEnabled) <==> overlay.artificial_pressure_enabled is Some,
        field_supplied(overlay, NumericalField::ArtificialPressureStrengthScale) <==> overlay.artificial_pressure_strength_scale_bits is Some,
        field_supplied(overlay, NumericalField::ArtificialPressureReferenceSeparationRatio) <==> overlay.artificial_pressure_reference_separation_ratio_bits is Some,
        field_supplied(overlay, NumericalField::ArtificialPressureExponent) <==> overlay.artificial_pressure_exponent_bits is Some,
        field_supplied(overlay, NumericalField::SupportPolicy) <==> overlay.support_policy is Some,
        field_supplied(overlay, NumericalField::BoundaryModel) <==> overlay.boundary_model is Some,
        field_supplied(overlay, NumericalField::NeighbourRebuildPolicy) <==> overlay.neighbour_rebuild_policy is Some,
        field_supplied(overlay, NumericalField::ParticleOrderPolicy) <==> overlay.particle_order_policy is Some,
        field_supplied(overlay, NumericalField::XsphViscosityEnabled) <==> overlay.xsph_viscosity_enabled is Some,
        field_supplied(overlay, NumericalField::VorticityConfinementEnabled) <==> overlay.vorticity_confinement_enabled is Some,
{
}

/// ### Applies one configuration layer
///
/// Every value that `overlay` supplies replaces the model's value, and the
/// provenance of exactly those fields becomes `source`; all other values and
/// sources are kept.
pub fn apply_overrides(
    overlay: NumericalOverlay,
    source: FieldSource,
    model: &mut NumericalValues,
    sources: &mut ValueSources,
)
    ensures
        *final(model) == overlaid(*old(model), overlay),
        forall|field: NumericalField| #[trigger] final(sources).source(field) == if field_supplied(
            overlay,
            field,
        ) {
            source
        } else {
            old(sources).source(field)
        },
        overlay.scalar_precision matches Some(value) ==> final(model).scalar_precision == value,
        overlay.scalar_precision is None ==> final(model).scalar_precision == old(model).scalar_precision,
        final(sources).source(NumericalField::ScalarPrecision) == if overlay.scalar_precision is Some {
            source
        } else {
            old(sources).source(NumericalField::ScalarPrecision)
        },
        overlay.coordinate_system matches Some(value) ==> final(model).coordinate_system == value,
        overlay.coordinate_system is None ==> final(model).coordinate_system == old(model).coordinate_system,
        final(sources).source(NumericalField::CoordinateSystem) == if overlay.coordinate_system is Some {
            source
        } else {
            old(sources).source(NumericalField::CoordinateSystem)
        },
        overlay.timestep_policy matches Some(value) ==> final(model).timestep_policy == value,
        overlay.timestep_policy is None ==> final(model).timestep_policy == old(model).timestep_policy,
        final(sources).source(NumericalField::TimestepPolicy) == if overlay.timestep_policy is Some {
            source
        } else {
            old(sources).source(NumericalField::TimestepPolicy)
        },
        overlay.density_kernel matches Some(value) ==> final(model).density_kernel == value,
        overlay.density_kernel is None ==> final(model).density_kernel == old(model).density_kernel,
        final(sources).source(NumericalField::DensityKernel) == if overlay.density_kernel is Some {
            source
        } else {
            old(sources).source(NumericalField::DensityKernel)
        },
        overlay.correction_kernel matches Some(value) ==> final(model).correction_kernel == value,
        overlay.correction_kernel is None ==> final(model).correction_kernel == old(model).correction_kernel,
        final(sources).source(NumericalField::CorrectionKernel) == if overlay.correction_kernel is Some {
            source
        } else {
            old(sources).source(NumericalField::CorrectionKernel)
        },
        overlay.solver_update_policy matches Some(value) ==> final(model).solver_update_policy == value,
        overlay.solver_update_policy is None ==> final(model).solver_update_policy == old(model).solver_update_policy,
        final(sources).source(NumericalField::SolverUpdatePolicy) == if overlay.solver_update_policy is Some {
            source
        } else {
            old(sources).source(NumericalField::SolverUpdatePolicy)
        },
        overlay.external_acceleration_m_s2_bits matches Some(value) ==> final(model).external_acceleration_m_s2_bits == value,
        overlay.external_acceleration_m_s2_bits is None ==> final(model).external_acceleration_m_s2_bits == old(model).external_acceleration_m_s2_bits,
        final(sources).source(NumericalField::ExternalAccelerationMS2) == if overlay.external_acceleration_m_s2_bits is Some {
            source
        } else {
            old(sources).source(NumericalField::ExternalAccelerationMS2)
        },
        overlay.fixed_timestep_s_bits matches Some(value) ==> final(model).fixed_timestep_s_bits == value,
        overlay.fixed_timestep_s_bits is None ==> final(model).fixed_timestep_s_bits == old(model).fixed_timestep_s_bits,
        final(sources).source(NumericalField::FixedTimestepS) == if overlay.fixed_timestep_s_bits is Some {
            source
        } else {
            old(sources).source(NumericalField::FixedTimestepS)
        },
        overlay.cfl_factor_bits matches Some(value) ==> final(model).cfl_factor_bits == value,
        overlay.cfl_factor_bits is None ==> final(model).cfl_factor_bits == old(model).cfl_factor_bits,
        final(sources).source(NumericalField::CflFactor) == if overlay.cfl_factor_bits is Some {
            source
        } else {
            old(sources).source(NumericalField::CflFactor)
        },
        overlay.particle_spacing_m_bits matches Some(value) ==> final(model).particle_spacing_m_bits == value,
        overlay.particle_spacing_m_bits is None ==> final(model).particle_spacing_m_bits == old(model).particle_spacing_m_bits,
        final(sources).source(NumericalField::ParticleSpacingM) == if overlay.particle_spacing_m_bits is Some {
            source
        } else {
            old(sources).source(NumericalField::ParticleSpacingM)
        },
        overlay.support_radius_ratio_bits matches Some(value) ==> final(model).support_radius_ratio_bits == value,
        overlay.support_radius_ratio_bits is None ==> final(model).support_radius_ratio_bits == old(model).support_radius_ratio_bits,
        final(sources).source(NumericalField::SupportRadiusRatio) == if overlay.support_radius_ratio_bits is Some {
            source
        } else {
            old(sources).source(NumericalField::SupportRadiusRatio)
        },
        overlay.physical_rest_density_kg_m3_bits matches Some(value) ==> final(model).physical_rest_density_kg_m3_bits == value,
        overlay.physical_rest_density_kg_m3_bits is None ==> final(model).physical_rest_density_kg_m3_bits == old(model).physical_rest_density_kg_m3_bits,
        final(sources).source(NumericalField::PhysicalRestDensityKgM3) == if overlay.physical_rest_density_kg_m3_bits is Some {
            source
        } else {
            old(sources).source(NumericalField::PhysicalRestDensityKgM3)
        },
        overlay.solver_iterations matches Some(value) ==> final(model).solver_iterations == value,
        overlay.solver_iterations is None ==> final(model).solver_iterations == old(model).solver_iterations,
        final(sources).source(NumericalField::SolverIterations) == if overlay.solver_iterations is Some {
            source
        } else {
            old(sources).source(NumericalField::SolverIterations)
        },
        overlay.relaxation_scale_bits matches Some(value) ==> final(model).relaxation_scale_bits == value,
        overlay.relaxation_scale_bits is None ==> final(model).relaxation_scale_bits == old(model).relaxation_scale_bits,
        final(sources).source(NumericalField::RelaxationScale) == if overlay.relaxation_scale_bits is Some {
            source
        } else {
            old(sources).source(NumericalField::RelaxationScale)
        },
        overlay.artificial_pressure_enabled matches Some(value) ==> final(model).artificial_pressure_enabled == value,
        overlay.artificial_pressure_enabled is None ==> final(model).artificial_pressure_enabled == old(model).artificial_pressure_enabled,
        final(sources).source(NumericalField::ArtificialPressureEnabled) == if overlay.artificial_pressure_enabled is Some {
            source
        } else {
            old(sources).source(NumericalField::ArtificialPressureEnabled)
        },
        overlay.artificial_pressure_strength_scale_bits matches Some(value) ==> final(model).artificial_pressure_strength_scale_bits == value,
        overlay.artificial_pressure_strength_scale_bits is None ==> final(model).artificial_pressure_strength_scale_bits == old(model).artificial_pressure_strength_scale_bits,
        final(sources).source(NumericalField::ArtificialPressureStrengthScale) == if overlay.artificial_pressure_strength_scale_bits is Some {
            source
        } else {
            old(sources).source(NumericalField::ArtificialPressureStrengthScale)
        },
        overlay.artificial_pressure_reference_separation_ratio_bits matches Some(value) ==> final(model).artificial_pressure_reference_separation_ratio_bits == value,
        overlay.artificial_pressure_reference_separation_ratio_bits is None ==> final(model).artificial_pressure_reference_separation_ratio_bits == old(model).artificial_pressure_reference_separation_ratio_bits,
        final(sources).source(NumericalField::ArtificialPressureReferenceSeparationRatio) == if overlay.artificial_pressure_reference_separation_ratio_bits is Some {
            source
        } else {
            old(sources).source(NumericalField::ArtificialPressureReferenceSeparationRatio)
        },
        overlay.artificial_pressure_exponent_bits matches Some(value) ==> final(model).artificial_pressure_exponent_bits == value,
        overlay.artificial_pressure_exponent_bits is None ==> final(model).artificial_pressure_exponent_bits == old(model).artificial_pressure_exponent_bits,
        final(sources).source(NumericalField::ArtificialPressureExponent) == if overlay.artificial_pressure_exponent_bits is Some {
            source
        } else {
            old(sources).source(NumericalField::ArtificialPressureExponent)
        },
        overlay.support_policy matches Some(value) ==> final(model).support_policy == value,
        overlay.support_policy is None ==> final(model).support_policy == old(model).support_policy,
        final(sources).source(NumericalField::SupportPolicy) == if overlay.support_policy is Some {
            source
        } else {
            old(sources).source(NumericalField::SupportPolicy)
        },
        overlay.boundary_model matches Some(value) ==> final(model).boundary_model == value,
        overlay.boundary_model is None ==> final(model).boundary_model == old(model).boundary_model,
        final(sources).source(NumericalField::BoundaryModel) == if overlay.boundary_model is Some {
            source
        } else {
            old(sources).source(NumericalField::BoundaryModel)
        },
        overlay.neighbour_rebuild_policy matches Some(value) ==> final(model).neighbour_rebuild_policy == value,
        overlay.neighbour_rebuild_policy is None ==> final(model).neighbour_rebuild_policy == old(model).neighbour_rebuild_policy,
        final(sources).source(NumericalField::NeighbourRebuildPolicy) == if overlay.neighbour_rebuild_policy is Some {
            source
        } else {
            old(sources).source(NumericalField::NeighbourRebuildPolicy)
        },
        overlay.particle_order_policy matches Some(value) ==> final(model).particle_order_policy == value,
        overlay.particle_order_policy is None ==> final(model).particle_order_policy == old(model).particle_order_policy,
        final(sources).source(NumericalField::ParticleOrderPolicy) == if overlay.particle_order_policy is Some {
            source
        } else {
            old(sources).source(NumericalField::ParticleOrderPolicy)
        },
        overlay.xsph_viscosity_enabled matches Some(value) ==> final(model).xsph_viscosity_enabled == value,
        overlay.xsph_viscosity_enabled is None ==> final(model).xsph_viscosity_enabled == old(model).xsph_viscosity_enabled,
        final(sources).source(NumericalField::XsphViscosityEnabled) == if overlay.xsph_viscosity_enabled is Some {
            source
        } else {
            old(sources).source(NumericalField::XsphViscosityEnabled)
        },
        overlay.vorticity_confinement_enabled matches Some(value) ==> final(model).vorticity_confinement_enabled == value,
        overlay.vorticity_confinement_enabled is None ==> final(model).vorticity_confinement_enabled == old(model).vorticity_confinement_enabled,
        final(sources).source(NumericalField::VorticityConfinementEnabled) == if overlay.vorticity_confinement_enabled is Some {
            source
        } else {
            old(sources).source(NumericalField::VorticityConfinementEnabled)
        },
{
    let supplied = supplied_list(&overlay);
    let NumericalOverlay {
        scalar_precision,
        coordinate_system,
        timestep_policy,
        density_kernel,
        correction_kernel,
        solver_update_policy,
        external_acceleration_m_s2_bits,
        fixed_timestep_s_bits,
        cfl_factor_bits,
        particle_spacing_m_bits,
        support_radius_ratio_bits,
        physical_rest_density_kg_m3_bits,
        solver_iterations,
        relaxation_scale_bits,
        artificial_pressure_enabled,
        artificial_pressure_strength_scale_bits,
        artificial_pressure_reference_separation_ratio_bits,
        artificial_pressure_exponent_bits,
        support_policy,
        boundary_model,
        neighbour_rebuild_policy,
        particle_order_policy,
        xsph_viscosity_enabled,
        vorticity_confinement_enabled,
    } = overlay;
    replace_when_supplied(&mut model.scalar_precision, scalar_precision);
    replace_when_supplied(&mut model.coordinate_system, coordinate_system);
    replace_when_supplied(&mut model.timestep_policy, timestep_policy);
    replace_when_supplied(&mut model.density_kernel, density_kernel);
    replace_when_supplied(&mut model.correction_kernel, correction_kernel);
    replace_when_supplied(&mut model.solver_update_policy, solver_update_policy);
    replace_when_supplied(&mut model.external_acceleration_m_s2_bits, external_acceleration_m_s2_bits);
    replace_when_supplied(&mut model.fixed_timestep_s_bits, fixed_timestep_s_bits);
    replace_when_supplied(&mut model.cfl_factor_bits, cfl_factor_bits);
    replace_when_supplied(&mut model.particle_spacing_m_bits, particle_spacing_m_bits);
    replace_when_supplied(&mut model.support_radius_ratio_bits, support_radius_ratio_bits);
    replace_when_supplied(&mut model.physical_rest_density_kg_m3_bits, physical_rest_density_kg_m3_bits);
    replace_when_supplied(&mut model.solver_iterations, solver_iterations);
    replace_when_supplied(&mut model.relaxation_scale_bits, relaxation_scale_bits);
    replace_when_supplied(&mut model.artificial_pressure_enabled, artificial_pressure_enabled);
    replace_when_supplied(&mut model.artificial_pressure_strength_scale_bits, artificial_pressure_strength_scale_bits);
    replace_when_supplied(&mut model.artificial_pressure_reference_separation_ratio_bits, artificial_pressure_reference_separation_ratio_bits);
    replace_when_supplied(&mut model.artificial_pressure_exponent_bits, artificial_pressure_exponent_bits);
    replace_when_supplied(&mut model.support_policy, support_policy);
    replace_when_supplied(&mut model.boundary_model, boundary_model);
    replace_when_supplied(&mut model.neighbour_rebuild_policy, neighbour_rebuild_policy);
    replace_when_supplied(&mut model.particle_order_policy, particle_order_policy);
    replace_when_supplied(&mut model.xsph_viscosity_enabled, xsph_viscosity_enabled);
    replace_when_supplied(&mut model.vorticity_confinement_enabled, vorticity_confinement_enabled);
    sources.record_layer(&supplied, source);
}

} // verus!

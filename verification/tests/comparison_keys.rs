//! Comparison keys: digit encodings and the configuration and scene key layouts.

use maelstrom::keys::{
    ConfigurationIdentity, configuration_comparison_key, push_bool, push_decimal, push_hex8,
    push_hex_list, push_vec3_bits, scene_comparison_key,
};

fn defaults() -> ConfigurationIdentity<'static> {
    ConfigurationIdentity {
        scalar_precision: "binary32",
        coordinate_system: "right_handed_y_up_metres_seconds_kilograms",
        timestep_policy: "fixed",
        density_kernel: "poly6",
        correction_kernel: "spiky",
        solver_update_policy: "jacobi_immutable_snapshot",
        external_acceleration_m_s2_bits: [0.0_f32.to_bits(), (-9.81_f32).to_bits(), 0.0_f32.to_bits()],
        fixed_timestep_s_bits: (1.0_f32 / 120.0_f32).to_bits(),
        cfl_factor_bits: 0.4_f32.to_bits(),
        particle_spacing_m_bits: 0.05_f32.to_bits(),
        support_radius_ratio_bits: 2.0_f32.to_bits(),
        physical_rest_density_kg_m3_bits: 1000.0_f32.to_bits(),
        solver_iterations: 4,
        relaxation_scale_bits: 1.0e-6_f32.to_bits(),
        artificial_pressure_enabled: true,
        artificial_pressure_strength_scale_bits: 0.1_f32.to_bits(),
        artificial_pressure_reference_separation_ratio_bits: 0.2_f32.to_bits(),
        artificial_pressure_exponent_bits: 4.0_f32.to_bits(),
        support_policy: "strict_less_than",
        boundary_model: "static_plane_projection",
        neighbour_rebuild_policy: "once_after_prediction",
        particle_order_policy: "ascending_particle_identity",
        xsph_viscosity_enabled: false,
        vorticity_confinement_enabled: false,
        derived_bits: [1, 2, 3, 4, 5, 6, 0xdead_beef],
        lattice_offset_count: 27,
    }
}

#[test]
fn digits_are_written_as_format_writes_them() {
    for value in [0_u32, 1, 0xff, 0x8000_0000, 0xdead_beef, u32::MAX, (-9.81_f32).to_bits()] {
        let mut output = String::from("x");
        push_hex8(&mut output, value);
        assert_eq!(output, format!("x{value:08x}"));
    }
    for value in [0_u64, 7, 10, 99, 100, 1_000_000, u64::MAX] {
        let mut output = String::new();
        push_decimal(&mut output, value);
        assert_eq!(output, value.to_string());
    }
    let mut output = String::new();
    push_bool(&mut output, true);
    push_bool(&mut output, false);
    assert_eq!(output, "truefalse");
    let mut output = String::new();
    push_vec3_bits(&mut output, [1, 0xabc, u32::MAX]);
    assert_eq!(output, "00000001,00000abc,ffffffff");
    let mut output = String::new();
    push_hex_list(&mut output, &[]);
    assert_eq!(output, "");
    push_hex_list(&mut output, &[16, 17]);
    assert_eq!(output, "00000010,00000011");
}

#[test]
fn configuration_key_lists_every_value_in_order() {
    let identity = defaults();
    let d = &identity;
    let expected = format!(
        "configuration-comparison-v1|{}|{}|{}|{}|{}|{}|{:08x},{:08x},{:08x}|{:08x}|{:08x}|{:08x}|{:08x}|{:08x}|{}|{:08x}|{}|{:08x}|{:08x}|{:08x}|{}|{}|{}|{}|{}|{}|{:08x}|{:08x}|{:08x}|{:08x}|{:08x}|{:08x}|{:08x}|{}",
        d.scalar_precision,
        d.coordinate_system,
        d.timestep_policy,
        d.density_kernel,
        d.correction_kernel,
        d.solver_update_policy,
        d.external_acceleration_m_s2_bits[0],
        d.external_acceleration_m_s2_bits[1],
        d.external_acceleration_m_s2_bits[2],
        d.fixed_timestep_s_bits,
        d.cfl_factor_bits,
        d.particle_spacing_m_bits,
        d.support_radius_ratio_bits,
        d.physical_rest_density_kg_m3_bits,
        d.solver_iterations,
        d.relaxation_scale_bits,
        d.artificial_pressure_enabled,
        d.artificial_pressure_strength_scale_bits,
        d.artificial_pressure_reference_separation_ratio_bits,
        d.artificial_pressure_exponent_bits,
        d.support_policy,
        d.boundary_model,
        d.neighbour_rebuild_policy,
        d.particle_order_policy,
        d.xsph_viscosity_enabled,
        d.vorticity_confinement_enabled,
        d.derived_bits[0],
        d.derived_bits[1],
        d.derived_bits[2],
        d.derived_bits[3],
        d.derived_bits[4],
        d.derived_bits[5],
        d.derived_bits[6],
        d.lattice_offset_count,
    );
    assert_eq!(configuration_comparison_key(&identity), expected);
}

#[test]
fn every_value_change_changes_the_configuration_key() {
    let base = configuration_comparison_key(&defaults());
    let mut variants = Vec::new();
    let mut changed = defaults();
    changed.solver_iterations = 5;
    variants.push(changed);
    let mut changed = defaults();
    changed.fixed_timestep_s_bits = (1.0_f32 / 60.0_f32).to_bits();
    variants.push(changed);
    let mut changed = defaults();
    changed.external_acceleration_m_s2_bits[2] = 1.0_f32.to_bits();
    variants.push(changed);
    let mut changed = defaults();
    changed.artificial_pressure_enabled = false;
    variants.push(changed);
    let mut changed = defaults();
    changed.derived_bits[6] = 0;
    variants.push(changed);
    let mut changed = defaults();
    changed.lattice_offset_count = 123;
    variants.push(changed);
    let mut changed = defaults();
    changed.boundary_model = "boundary_particles";
    variants.push(changed);
    for variant in &variants {
        assert_ne!(configuration_comparison_key(variant), base);
    }
}

#[test]
fn scene_key_lists_planes_and_particles_in_order() {
    let identity = defaults();
    let key = scene_comparison_key(
        &identity,
        &[[0, 0x3f80_0000, 0, 0]],
        &[(10, [1, 2, 3, 4, 5, 6]), (11, [0; 6])],
    );
    let expected = format!(
        "scene-comparison-v1|randomness=none|{}|planes:00000000,3f800000,00000000,00000000|particles:10:00000001,00000002,00000003,00000004,00000005,00000006:11:00000000,00000000,00000000,00000000,00000000,00000000",
        configuration_comparison_key(&identity)
    );
    assert_eq!(key, expected);
    let empty = scene_comparison_key(&identity, &[], &[]);
    assert_eq!(
        empty,
        format!(
            "scene-comparison-v1|randomness=none|{}|planes|particles",
            configuration_comparison_key(&identity)
        )
    );
}

#[test]
fn scene_keys_differ_when_planes_or_particles_differ() {
    let identity = defaults();
    let planes = [[0, 0x3f80_0000, 0, 0]];
    let particles = [(1, [0x3f80_0000, 0, 0, 0, 0, 0]), (2, [0; 6])];
    let base = scene_comparison_key(&identity, &planes, &particles);
    assert_eq!(base, scene_comparison_key(&identity, &planes, &particles));
    assert_ne!(base, scene_comparison_key(&identity, &[], &particles));
    assert_ne!(base, scene_comparison_key(&identity, &planes, &particles[..1]));
    assert_ne!(
        base,
        scene_comparison_key(&identity, &planes, &[(12, [0x3f80_0000, 0, 0, 0, 0, 0]), (2, [0; 6])])
    );
    assert_ne!(
        base,
        scene_comparison_key(&identity, &[[0, 0x3f80_0000, 0, 1]], &particles)
    );
    let mut other = identity;
    other.solver_iterations = identity.solver_iterations + 1;
    assert_ne!(base, scene_comparison_key(&other, &planes, &particles));
}

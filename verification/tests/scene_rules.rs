//! Scene rules: configuration selection, references, counts, identities and lattice order.

use maelstrom::config::ConfigError;
use maelstrom::scene::{
    ConfigurationSource, MAX_EXPLICIT_PARTICLES, MAX_LATTICE_PARTICLES, MAX_PLANES, SceneError,
    check_explicit_count, check_identity_order, check_lattice_axes, check_plane_count,
    canonical_inspection, classify_reference, lattice_cell, lattice_identity, lattice_particle_count,
    select_configuration, select_configuration_given, validate_relative_reference,
    validate_scene_text,
};
use maelstrom::keys::{ConfigurationIdentity, configuration_comparison_key};
use maelstrom::text::quoted;

fn selection_reason(result: Result<bool, SceneError>) -> String {
    match result {
        Err(SceneError::InvalidConfigurationSelection { reason }) => reason,
        other => panic!("expected an invalid selection, got {other:?}"),
    }
}

#[test]
fn absolute_configuration_references_are_rejected() {
    // A file source with an absolute path.
    assert!(matches!(
        select_configuration(
            ConfigurationSource::File,
            Some("/machine/specific/config.toml"),
            false
        ),
        Err(SceneError::InvalidConfigurationSelection { .. })
    ));
    // A file source without a path.
    assert!(matches!(
        select_configuration(ConfigurationSource::File, None, false),
        Err(SceneError::InvalidConfigurationSelection { .. })
    ));
    // A relative path, but no document supplied.
    assert!(matches!(
        select_configuration(ConfigurationSource::File, Some("configuration.toml"), false),
        Err(SceneError::MissingConfigurationDocument)
    ));
    // Built-in defaults must not carry a path.
    assert!(matches!(
        select_configuration(
            ConfigurationSource::BuiltInDefaults,
            Some("configuration.toml"),
            false
        ),
        Err(SceneError::InvalidConfigurationSelection { .. })
    ));
}

#[test]
fn configuration_selection_decides_the_base_document() {
    assert_eq!(
        select_configuration(ConfigurationSource::BuiltInDefaults, None, false).unwrap(),
        false
    );
    assert_eq!(
        select_configuration(
            ConfigurationSource::File,
            Some("../config/defaults-v1.toml"),
            true
        )
        .unwrap(),
        true
    );
    assert_eq!(
        selection_reason(select_configuration(
            ConfigurationSource::BuiltInDefaults,
            None,
            true
        )),
        "a configuration document was supplied for built_in_defaults"
    );
    assert_eq!(
        selection_reason(select_configuration(
            ConfigurationSource::BuiltInDefaults,
            Some("x.toml"),
            true
        )),
        "built_in_defaults must not include path"
    );
    assert_eq!(
        selection_reason(select_configuration(ConfigurationSource::File, None, true)),
        "file source requires path"
    );
    assert_eq!(
        selection_reason(select_configuration(
            ConfigurationSource::File,
            Some("  "),
            true
        )),
        "configuration path must not be empty"
    );
}

#[test]
fn references_must_be_non_blank_relative_paths() {
    assert!(validate_relative_reference("configuration.toml").is_ok());
    assert!(validate_relative_reference("../config/defaults-v1.toml").is_ok());
    assert!(matches!(
        validate_relative_reference(""),
        Err(SceneError::InvalidConfigurationSelection { reason }) if reason == "configuration path must not be empty"
    ));
    assert!(matches!(
        validate_relative_reference("/machine/specific/config.toml"),
        Err(SceneError::InvalidConfigurationSelection { reason }) if reason == "configuration path must be relative to the scene document"
    ));
    assert!(classify_reference("a.toml", false).is_ok());
    assert!(classify_reference("a.toml", true).is_err());
    assert!(matches!(
        classify_reference("\t", false),
        Err(SceneError::InvalidConfigurationSelection { reason }) if reason == "configuration path must not be empty"
    ));
}

#[test]
fn scene_text_is_checked_like_configuration_text() {
    assert!(validate_scene_text("scene name", "falling-block-06").is_ok());
    assert!(matches!(
        validate_scene_text("scene name", "  "),
        Err(ConfigError::InvalidField { field: "scene name", .. })
    ));
    assert!(matches!(
        validate_scene_text("scene description", "tab\tseparated"),
        Err(ConfigError::InvalidField { field: "scene description", .. })
    ));
}

#[test]
fn counts_and_identities_are_limited_and_ordered() {
    assert_eq!(MAX_PLANES, 32);
    assert!(check_plane_count(32).is_ok());
    assert!(matches!(
        check_plane_count(33),
        Err(SceneError::TooManyPlanes {
            maximum: 32,
            actual: 33
        })
    ));
    assert!(check_explicit_count(MAX_EXPLICIT_PARTICLES).is_ok());
    assert!(matches!(
        check_explicit_count(4097),
        Err(SceneError::ParticleCountTooLarge {
            construction: "explicit",
            maximum: 4096,
            requested: 4097
        })
    ));
    assert!(check_identity_order(None, 0).is_ok());
    assert!(check_identity_order(Some(3), 4).is_ok());
    assert!(matches!(
        check_identity_order(Some(4), 4),
        Err(SceneError::ParticleIdentityOrder {
            previous: 4,
            next: 4
        })
    ));
    assert!(matches!(
        check_identity_order(Some(9), 2),
        Err(SceneError::ParticleIdentityOrder {
            previous: 9,
            next: 2
        })
    ));
}

#[test]
fn invalid_lattice_geometry_and_impractical_counts_are_rejected() {
    assert!(matches!(
        check_lattice_axes([0, 1, 1]),
        Err(SceneError::EmptyLatticeAxis { axis: "x" })
    ));
    assert!(matches!(
        check_lattice_axes([1, 0, 1]),
        Err(SceneError::EmptyLatticeAxis { axis: "y" })
    ));
    assert!(matches!(
        check_lattice_axes([1, 1, 0]),
        Err(SceneError::EmptyLatticeAxis { axis: "z" })
    ));
    assert!(check_lattice_axes([1, 1, 1]).is_ok());

    assert_eq!(MAX_LATTICE_PARTICLES, 1_000_000);
    assert_eq!(lattice_particle_count(10, [2, 2, 2]).unwrap(), 8);
    assert_eq!(lattice_particle_count(0, [1000, 1000, 1]).unwrap(), 1_000_000);
    assert!(matches!(
        lattice_particle_count(10, [1_001, 1_000, 1]),
        Err(SceneError::ParticleCountTooLarge {
            construction: "lattice",
            maximum: MAX_LATTICE_PARTICLES,
            requested: 1_001_000
        })
    ));
    assert!(matches!(
        lattice_particle_count(u64::MAX, [2, 1, 1]),
        Err(SceneError::ParticleIdentityOverflow)
    ));
    assert!(matches!(
        check_explicit_count(MAX_EXPLICIT_PARTICLES + 1),
        Err(SceneError::ParticleCountTooLarge {
            maximum: MAX_EXPLICIT_PARTICLES,
            ..
        })
    ));
    assert!(matches!(
        check_plane_count(MAX_PLANES + 1),
        Err(SceneError::TooManyPlanes {
            maximum: MAX_PLANES,
            ..
        })
    ));
    assert!(matches!(
        lattice_particle_count(0, [u32::MAX, u32::MAX, u32::MAX]),
        Err(SceneError::ParticleCountTooLarge {
            requested: u64::MAX,
            ..
        })
    ));
    assert!(matches!(
        lattice_particle_count(u64::MAX - 6, [2, 2, 2]),
        Err(SceneError::ParticleIdentityOverflow)
    ));
    assert_eq!(lattice_particle_count(u64::MAX - 7, [2, 2, 2]).unwrap(), 8);
    assert_eq!(lattice_particle_count(u64::MAX, [0, 5, 5]).unwrap(), 0);
}

#[test]
fn lattice_cells_run_x_outermost_and_z_fastest() {
    let counts = [2, 2, 2];
    let cells: Vec<(u32, u32, u32)> = (0..8).map(|index| lattice_cell(counts, index)).collect();
    assert_eq!(
        cells,
        vec![
            (0, 0, 0),
            (0, 0, 1),
            (0, 1, 0),
            (0, 1, 1),
            (1, 0, 0),
            (1, 0, 1),
            (1, 1, 0),
            (1, 1, 1),
        ]
    );
    assert_eq!(lattice_cell([3, 4, 5], 59), (2, 3, 4));
    assert_eq!(lattice_cell([3, 4, 5], 23), (1, 0, 3));
}

#[test]
fn quoting_escapes_backslashes_and_quotes_only() {
    assert_eq!(quoted("plain"), "\"plain\"");
    assert_eq!(quoted(""), "\"\"");
    assert_eq!(quoted("a\"b\\c"), "\"a\\\"b\\\\c\"");
    assert_eq!(quoted("ünï\tcode"), "\"ünï\tcode\"");
}

#[test]
fn scene_errors_wrap_configuration_and_numerical_errors() {
    let wrapped = SceneError::from(ConfigError::UnsupportedSchema {
        document: "scene",
        supported: 1,
        found: 2,
    });
    assert!(matches!(
        wrapped,
        SceneError::Configuration(ConfigError::UnsupportedSchema { found: 2, .. })
    ));
    let wrapped = SceneError::from(maelstrom::NumericalError::ZeroPlaneNormal);
    assert!(matches!(
        wrapped,
        SceneError::Numerical(maelstrom::NumericalError::ZeroPlaneNormal)
    ));
}

#[test]
fn selection_follows_the_absolute_path_answer() {
    assert!(matches!(
        select_configuration_given(ConfigurationSource::File, Some("a/b.toml"), false, false),
        Err(SceneError::MissingConfigurationDocument)
    ));
    assert_eq!(
        select_configuration_given(ConfigurationSource::File, Some("a/b.toml"), true, false).unwrap(),
        true
    );
    assert_eq!(
        selection_reason(select_configuration_given(
            ConfigurationSource::File,
            Some("a/b.toml"),
            true,
            true
        )),
        "configuration path must be relative to the scene document"
    );
    assert_eq!(
        selection_reason(select_configuration_given(ConfigurationSource::File, Some("  "), true, true)),
        "configuration path must not be empty"
    );
    assert_eq!(
        select_configuration_given(ConfigurationSource::BuiltInDefaults, None, false, true).unwrap(),
        false
    );
    assert!(matches!(
        select_configuration(ConfigurationSource::File, Some("configuration.toml"), false),
        Err(SceneError::MissingConfigurationDocument)
    ));
}

#[test]
fn scene_inspection_lists_metadata_planes_and_particles() {
    let identity = ConfigurationIdentity {
        scalar_precision: "binary32",
        coordinate_system: "right_handed_y_up_metres_seconds_kilograms",
        timestep_policy: "fixed",
        density_kernel: "poly6",
        correction_kernel: "spiky",
        solver_update_policy: "jacobi_immutable_snapshot",
        external_acceleration_m_s2_bits: [0, 0xc11c_f5c3, 0],
        fixed_timestep_s_bits: 0x3c08_8889,
        cfl_factor_bits: 0x3ecc_cccd,
        particle_spacing_m_bits: 0x3d4c_cccd,
        support_radius_ratio_bits: 0x4000_0000,
        physical_rest_density_kg_m3_bits: 0x447a_0000,
        solver_iterations: 4,
        relaxation_scale_bits: 0x3586_37bd,
        artificial_pressure_enabled: true,
        artificial_pressure_strength_scale_bits: 0x3dcc_cccd,
        artificial_pressure_reference_separation_ratio_bits: 0x3e4c_cccd,
        artificial_pressure_exponent_bits: 0x4080_0000,
        support_policy: "strict_less_than",
        boundary_model: "static_plane_projection",
        neighbour_rebuild_policy: "once_after_prediction",
        particle_order_policy: "ascending_particle_identity",
        xsph_viscosity_enabled: false,
        vorticity_confinement_enabled: false,
        derived_bits: [1, 2, 3, 4, 5, 6, 7],
        lattice_offset_count: 9,
    };
    let text = canonical_inspection(
        1,
        "box \"a\"",
        "",
        &identity,
        &[["0.0", "1.0", "0.0", "0.0"], ["1.0", "0.0", "0.0", "-0.5"]],
        &[(7, ["0.0", "0.05", "0.0", "0.0", "0.0", "0.0"])],
    );
    let expected = format!(
        "scene_schema_version = 1\nname = \"box \\\"a\\\"\"\ndescription = \"\"\nrandomness = \"none\"\nconfiguration_key = {}\nplane_count = 2\nplane.0 = [0.0, 1.0, 0.0, 0.0]\nplane.1 = [1.0, 0.0, 0.0, -0.5]\nparticle_count = 1\nparticle.7 = [0.0, 0.05, 0.0, 0.0, 0.0, 0.0]\n",
        quoted(&configuration_comparison_key(&identity))
    );
    assert_eq!(text, expected);
    let empty = canonical_inspection(2, "n", "d", &identity, &[], &[]);
    assert!(empty.ends_with("plane_count = 0\nparticle_count = 0\n"));
    assert!(empty.starts_with("scene_schema_version = 2\nname = \"n\"\ndescription = \"d\"\n"));
}

#[test]
fn lattice_identities_are_consecutive_from_the_first() {
    assert_eq!(lattice_identity(10, 0).unwrap(), 10);
    assert_eq!(lattice_identity(10, 7).unwrap(), 17);
    assert_eq!(lattice_identity(u64::MAX - 1, 1).unwrap(), u64::MAX);
    assert!(matches!(
        lattice_identity(u64::MAX, 1),
        Err(SceneError::ParticleIdentityOverflow)
    ));
}

#[test]
fn scene_inspection_keeps_names_and_descriptions_apart() {
    let identity = ConfigurationIdentity {
        scalar_precision: "binary32",
        coordinate_system: "right_handed_y_up_metres_seconds_kilograms",
        timestep_policy: "fixed",
        density_kernel: "poly6",
        correction_kernel: "spiky",
        solver_update_policy: "jacobi_immutable_snapshot",
        external_acceleration_m_s2_bits: [0; 3],
        fixed_timestep_s_bits: 1,
        cfl_factor_bits: 2,
        particle_spacing_m_bits: 3,
        support_radius_ratio_bits: 4,
        physical_rest_density_kg_m3_bits: 5,
        solver_iterations: 4,
        relaxation_scale_bits: 6,
        artificial_pressure_enabled: true,
        artificial_pressure_strength_scale_bits: 7,
        artificial_pressure_reference_separation_ratio_bits: 8,
        artificial_pressure_exponent_bits: 9,
        support_policy: "strict_less_than",
        boundary_model: "static_plane_projection",
        neighbour_rebuild_policy: "once_after_prediction",
        particle_order_policy: "ascending_particle_identity",
        xsph_viscosity_enabled: false,
        vorticity_confinement_enabled: false,
        derived_bits: [0; 7],
        lattice_offset_count: 1,
    };
    let particles = [(0, ["0.0", "0.0", "0.0", "0.0", "0.0", "0.0"])];
    let first = canonical_inspection(1, "focused", "One particle", &identity, &[], &particles);
    let renamed = canonical_inspection(
        1,
        "a-different-display-name",
        "Different explanatory prose",
        &identity,
        &[],
        &particles,
    );
    let again = canonical_inspection(1, "focused", "One particle", &identity, &[], &particles);
    assert_ne!(first, renamed);
    assert_eq!(first, again);
    let shifted = canonical_inspection(1, "a\\\"b", "", &identity, &[], &particles);
    let merged = canonical_inspection(1, "a\\", "b", &identity, &[], &particles);
    assert_ne!(shifted, merged);
}

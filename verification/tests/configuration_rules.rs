//! Configuration rules: schema, identifying text, policies, provenance and inspection text.

use maelstrom::config::{
    CONFIG_SCHEMA_VERSION, ConfigError, DerivedCheck, FieldSource, MAX_SOLVER_ITERATIONS,
    InspectedConfiguration, NumericalField, NumericalOverlay, NumericalValues, SCALAR_PRECISION,
    apply_overrides, canonical_toml, default_sources, push_line, push_provenance, push_string,
    require_policy, validate_assertions, validate_policies, validate_schema,
    validate_solver_iterations, validate_text, validate_unsupported_switches,
};

const SUPPORTED: [&str; 10] = [
    "binary32",
    "right_handed_y_up_metres_seconds_kilograms",
    "fixed",
    "poly6",
    "spiky",
    "jacobi_immutable_snapshot",
    "strict_less_than",
    "static_plane_projection",
    "once_after_prediction",
    "ascending_particle_identity",
];

fn invalid_field(result: Result<(), ConfigError>) -> (&'static str, String) {
    match result {
        Err(ConfigError::InvalidField { field, reason }) => (field, reason),
        other => panic!("expected an invalid field, got {other:?}"),
    }
}

#[test]
fn schema_version_must_be_supported() {
    assert_eq!(CONFIG_SCHEMA_VERSION, 1);
    assert!(validate_schema(1, "configuration").is_ok());
    for found in [0, 2] {
        match validate_schema(found, "scene") {
            Err(ConfigError::UnsupportedSchema {
                document,
                supported,
                found: reported,
            }) => {
                assert_eq!(document, "scene");
                assert_eq!(supported, 1);
                assert_eq!(reported, found);
            }
            other => panic!("unexpected {other:?}"),
        }
    }
}

#[test]
fn identifying_text_must_not_be_blank_or_contain_controls() {
    assert!(validate_text("name", "maelstrom-defaults-v1").is_ok());
    assert!(validate_text("name", "  padded  ").is_ok());
    let (field, reason) = invalid_field(validate_text("name", "   "));
    assert_eq!((field, reason.as_str()), ("name", "must not be empty"));
    let (_, reason) = invalid_field(validate_text("description", ""));
    assert_eq!(reason, "must not be empty");
    // Unicode whitespace counts as blank, as with `str::trim`.
    let (_, reason) = invalid_field(validate_text("name", "\u{3000}\t\u{2028}"));
    assert_eq!(reason, "must not be empty");
    let (field, reason) = invalid_field(validate_text("description", "line\nbreak"));
    assert_eq!(field, "description");
    assert_eq!(reason, "must not contain control characters");
    let (_, reason) = invalid_field(validate_text("name", "bell\u{7}"));
    assert_eq!(reason, "must not contain control characters");
}

#[test]
fn fixed_policies_accept_only_their_supported_values() {
    assert!(validate_policies(SUPPORTED).is_ok());
    assert!(require_policy("scalar_precision", "binary32", SCALAR_PRECISION).is_ok());
    let (field, reason) =
        invalid_field(require_policy("scalar_precision", "binary64", SCALAR_PRECISION));
    assert_eq!(field, "scalar_precision");
    assert_eq!(reason, "supported value is \"binary32\", got \"binary64\"");

    let alternatives = [
        "binary64",
        "left_handed_y_up",
        "adaptive",
        "cubic_spline",
        "wendland",
        "gauss_seidel",
        "less_than_or_equal",
        "boundary_particles",
        "every_iteration",
        "file_order",
    ];
    let names = [
        "scalar_precision",
        "coordinate_system",
        "timestep_policy",
        "density_kernel",
        "correction_kernel",
        "solver_update_policy",
        "support_policy",
        "boundary_model",
        "neighbour_rebuild_policy",
        "particle_order_policy",
    ];
    for index in 0..10 {
        let mut values = SUPPORTED;
        values[index] = alternatives[index];
        let (field, _) = invalid_field(validate_policies(values));
        assert_eq!(field, names[index]);
    }
    // The first failing field, in validation order, is reported.
    let mut values = SUPPORTED;
    values[3] = "wendland";
    values[1] = "left_handed_y_up";
    let (field, _) = invalid_field(validate_policies(values));
    assert_eq!(field, "coordinate_system");
}

#[test]
fn solver_iterations_and_switches_follow_the_supported_domain() {
    assert_eq!(MAX_SOLVER_ITERATIONS, 64);
    assert!(validate_solver_iterations(1).is_ok());
    assert!(validate_solver_iterations(64).is_ok());
    for invalid in [0, 65] {
        let (field, reason) = invalid_field(validate_solver_iterations(invalid));
        assert_eq!(field, "solver_iterations");
        assert_eq!(reason, "must be in 1..=64");
    }
    assert!(validate_unsupported_switches(false, false).is_ok());
    let (field, _) = invalid_field(validate_unsupported_switches(true, true));
    assert_eq!(field, "xsph_viscosity_enabled");
    let (field, reason) = invalid_field(validate_unsupported_switches(false, true));
    assert_eq!(field, "vorticity_confinement_enabled");
    assert_eq!(
        reason,
        "true is not supported by the current numerical contract"
    );
}

#[test]
fn derived_assertions_are_exact_bit_checks() {
    let radius = 0.1_f32.to_bits();
    let checks = [
        DerivedCheck {
            field: "particle_diameter_m",
            provided: None,
            expected: 0.05_f32.to_bits(),
        },
        DerivedCheck {
            field: "support_radius_m",
            provided: Some(radius),
            expected: radius,
        },
    ];
    assert!(validate_assertions("configuration file", &checks).is_ok());

    let mismatched = [
        checks[0],
        DerivedCheck {
            field: "support_radius_m",
            provided: Some(0.100_000_01_f32.to_bits()),
            expected: radius,
        },
    ];
    match validate_assertions("scene", &mismatched) {
        Err(ConfigError::DerivedMismatch {
            layer,
            field,
            expected,
            provided,
        }) => {
            assert_eq!(layer, "scene");
            assert_eq!(field, "support_radius_m");
            assert_eq!(expected, radius);
            assert_eq!(provided, 0.100_000_01_f32.to_bits());
        }
        other => panic!("unexpected {other:?}"),
    }

    // A non-finite assertion never matches, even against equal bits.
    let nan = f32::NAN.to_bits();
    let non_finite = [DerivedCheck {
        field: "particle_mass_kg",
        provided: Some(nan),
        expected: nan,
    }];
    assert!(matches!(
        validate_assertions("command-line override", &non_finite),
        Err(ConfigError::DerivedMismatch { .. })
    ));
}

#[test]
fn provenance_records_the_last_supplying_layer() {
    let mut sources = default_sources();
    assert_eq!(sources.len(), 24);
    assert_eq!(
        sources.get(NumericalField::CflFactor),
        FieldSource::BuiltInDefault
    );
    sources.record_layer(
        &[NumericalField::FixedTimestepS, NumericalField::CflFactor],
        FieldSource::ConfigurationFile,
    );
    sources.record_layer(&[NumericalField::CflFactor], FieldSource::Scene);
    sources.record_layer(&[NumericalField::SolverIterations], FieldSource::CommandLine);

    assert_eq!(
        sources.get_by_name("fixed_timestep_s"),
        Some(FieldSource::ConfigurationFile)
    );
    assert_eq!(sources.get_by_name("cfl_factor"), Some(FieldSource::Scene));
    assert_eq!(
        sources.get_by_name("solver_iterations"),
        Some(FieldSource::CommandLine)
    );
    assert_eq!(
        sources.get_by_name("particle_spacing_m"),
        Some(FieldSource::BuiltInDefault)
    );
    assert_eq!(sources.get_by_name("not_a_field"), None);

    let copy = sources.clone();
    assert_eq!(copy, sources);
    sources.record(NumericalField::CflFactor, FieldSource::CommandLine);
    assert_ne!(copy, sources);
}

#[test]
fn field_names_round_trip_and_are_listed_in_byte_order() {
    let all = NumericalField::all();
    assert_eq!(all.len(), 24);
    for (index, field) in all.iter().enumerate() {
        assert_eq!(field.index(), index);
        assert_eq!(NumericalField::from_name(field.name()), Some(*field));
    }
    assert_eq!(
        NumericalField::ExternalAccelerationMS2.name(),
        "external_acceleration_m_s2"
    );
    let ordered: Vec<&str> = NumericalField::all_in_name_order()
        .iter()
        .map(|field| field.name())
        .collect();
    let mut sorted = ordered.clone();
    sorted.sort_unstable();
    assert_eq!(ordered, sorted);
    assert_eq!(ordered.len(), 24);
}

#[test]
fn inspection_lines_quote_values_and_list_provenance() {
    let mut output = String::new();
    push_line(&mut output, "solver_iterations", "4");
    push_string(&mut output, "name", "say \"hi\" \\ bye");
    assert_eq!(
        output,
        "solver_iterations = 4\nname = \"say \\\"hi\\\" \\\\ bye\"\n"
    );
    assert_eq!(FieldSource::BuiltInDefault.as_str(), "built_in_default");
    assert_eq!(FieldSource::ConfigurationFile.as_str(), "configuration_file");
    assert_eq!(FieldSource::Scene.as_str(), "scene");
    assert_eq!(FieldSource::CommandLine.as_str(), "command_line");

    let mut sources = default_sources();
    sources.record(NumericalField::ArtificialPressureEnabled, FieldSource::Scene);
    let mut provenance = String::new();
    push_provenance(&mut provenance, &sources);
    let lines: Vec<&str> = provenance.lines().collect();
    assert_eq!(lines.len(), 24);
    assert_eq!(lines[0], "artificial_pressure_enabled = \"scene\"");
    assert_eq!(
        lines[23],
        "xsph_viscosity_enabled = \"built_in_default\""
    );
}

fn inspected() -> InspectedConfiguration<'static> {
    InspectedConfiguration {
        schema_version: 1,
        name: "Default",
        description: "Built-in \"defaults\"",
        scalar_precision: SUPPORTED[0],
        coordinate_system: SUPPORTED[1],
        timestep_policy: SUPPORTED[2],
        density_kernel: SUPPORTED[3],
        correction_kernel: SUPPORTED[4],
        solver_update_policy: SUPPORTED[5],
        external_acceleration_m_s2: ["0.0", "-9.81", "0.0"],
        fixed_timestep_s: "0.008333334",
        cfl_factor: "0.4",
        particle_spacing_m: "0.05",
        support_radius_ratio: "2.0",
        physical_rest_density_kg_m3: "1000.0",
        solver_iterations: 4,
        relaxation_scale: "1e-6",
        artificial_pressure_enabled: true,
        artificial_pressure_strength_scale: "0.1",
        artificial_pressure_reference_separation_ratio: "0.2",
        artificial_pressure_exponent: "4.0",
        support_policy: SUPPORTED[6],
        boundary_model: SUPPORTED[7],
        neighbour_rebuild_policy: SUPPORTED[8],
        particle_order_policy: SUPPORTED[9],
        xsph_viscosity_enabled: false,
        vorticity_confinement_enabled: false,
        particle_diameter_m: "0.05",
        support_radius_m: "0.1",
        normalised_rest_density_per_m3: "8000.0",
        particle_mass_kg: "0.125",
        relaxation_per_m2: "0.01",
        artificial_pressure_strength_m2: "0.001",
        artificial_pressure_reference_separation_m: "0.02",
        lattice_offset_count: 33,
    }
}

#[test]
fn canonical_toml_writes_sections_in_order() {
    let mut sources = default_sources();
    sources.record(NumericalField::CflFactor, FieldSource::Scene);
    let text = canonical_toml(&inspected(), &sources);
    let expected_head = "schema_version = 1\nname = \"Default\"\ndescription = \"Built-in \\\"defaults\\\"\"\n\n[numerical]\nscalar_precision = \"binary32\"\ncoordinate_system = \"right_handed_y_up_metres_seconds_kilograms\"\ntimestep_policy = \"fixed\"\ndensity_kernel = \"poly6\"\ncorrection_kernel = \"spiky\"\nsolver_update_policy = \"jacobi_immutable_snapshot\"\nexternal_acceleration_m_s2 = [0.0, -9.81, 0.0]\nfixed_timestep_s = 0.008333334\ncfl_factor = 0.4\nparticle_spacing_m = 0.05\nsupport_radius_ratio = 2.0\nphysical_rest_density_kg_m3 = 1000.0\nsolver_iterations = 4\nrelaxation_scale = 1e-6\nartificial_pressure_enabled = true\nartificial_pressure_strength_scale = 0.1\nartificial_pressure_reference_separation_ratio = 0.2\nartificial_pressure_exponent = 4.0\nsupport_policy = \"strict_less_than\"\nboundary_model = \"static_plane_projection\"\nneighbour_rebuild_policy = \"once_after_prediction\"\nparticle_order_policy = \"ascending_particle_identity\"\nxsph_viscosity_enabled = false\nvorticity_confinement_enabled = false\n\n[derived]\nparticle_diameter_m = 0.05\nsupport_radius_m = 0.1\nnormalised_rest_density_per_m3 = 8000.0\nparticle_mass_kg = 0.125\nrelaxation_per_m2 = 0.01\nartificial_pressure_strength_m2 = 0.001\nartificial_pressure_reference_separation_m = 0.02\nlattice_offset_count = 33\n\n[provenance]\n";
    assert!(text.starts_with(expected_head), "{text}");
    let mut provenance = String::new();
    push_provenance(&mut provenance, &sources);
    assert_eq!(text, format!("{expected_head}{provenance}"));
    assert!(text.contains("\ncfl_factor = \"scene\"\n"));
    assert!(text.ends_with("xsph_viscosity_enabled = \"built_in_default\"\n"));
}

fn base_values() -> NumericalValues {
    NumericalValues {
        scalar_precision: SUPPORTED[0].to_string(),
        coordinate_system: SUPPORTED[1].to_string(),
        timestep_policy: SUPPORTED[2].to_string(),
        density_kernel: SUPPORTED[3].to_string(),
        correction_kernel: SUPPORTED[4].to_string(),
        solver_update_policy: SUPPORTED[5].to_string(),
        external_acceleration_m_s2_bits: [0, 0xc11c_f5c3, 0],
        fixed_timestep_s_bits: 1,
        cfl_factor_bits: 2,
        particle_spacing_m_bits: 3,
        support_radius_ratio_bits: 4,
        physical_rest_density_kg_m3_bits: 5,
        solver_iterations: 4,
        relaxation_scale_bits: 6,
        artificial_pressure_enabled: true,
        artificial_pressure_strength_scale_bits: 7,
        artificial_pressure_reference_separation_ratio_bits: 8,
        artificial_pressure_exponent_bits: 9,
        support_policy: SUPPORTED[6].to_string(),
        boundary_model: SUPPORTED[7].to_string(),
        neighbour_rebuild_policy: SUPPORTED[8].to_string(),
        particle_order_policy: SUPPORTED[9].to_string(),
        xsph_viscosity_enabled: false,
        vorticity_confinement_enabled: false,
    }
}

fn empty_overlay() -> NumericalOverlay {
    NumericalOverlay {
        scalar_precision: None,
        coordinate_system: None,
        timestep_policy: None,
        density_kernel: None,
        correction_kernel: None,
        solver_update_policy: None,
        external_acceleration_m_s2_bits: None,
        fixed_timestep_s_bits: None,
        cfl_factor_bits: None,
        particle_spacing_m_bits: None,
        support_radius_ratio_bits: None,
        physical_rest_density_kg_m3_bits: None,
        solver_iterations: None,
        relaxation_scale_bits: None,
        artificial_pressure_enabled: None,
        artificial_pressure_strength_scale_bits: None,
        artificial_pressure_reference_separation_ratio_bits: None,
        artificial_pressure_exponent_bits: None,
        support_policy: None,
        boundary_model: None,
        neighbour_rebuild_policy: None,
        particle_order_policy: None,
        xsph_viscosity_enabled: None,
        vorticity_confinement_enabled: None,
    }
}

#[test]
fn a_layer_replaces_exactly_the_values_it_supplies() {
    let mut values = base_values();
    let mut sources = default_sources();
    let mut overlay = empty_overlay();
    overlay.cfl_factor_bits = Some(0x3f00_0000);
    overlay.solver_iterations = Some(8);
    overlay.boundary_model = Some("other".to_string());
    apply_overrides(overlay, FieldSource::CommandLine, &mut values, &mut sources);
    assert_eq!(values.cfl_factor_bits, 0x3f00_0000);
    assert_eq!(values.solver_iterations, 8);
    assert_eq!(values.boundary_model, "other");
    assert_eq!(values.fixed_timestep_s_bits, 1);
    assert_eq!(values.scalar_precision, "binary32");
    assert_eq!(values.external_acceleration_m_s2_bits, [0, 0xc11c_f5c3, 0]);
    assert_eq!(sources.get(NumericalField::CflFactor), FieldSource::CommandLine);
    assert_eq!(sources.get(NumericalField::SolverIterations), FieldSource::CommandLine);
    assert_eq!(sources.get(NumericalField::BoundaryModel), FieldSource::CommandLine);
    assert_eq!(sources.get(NumericalField::FixedTimestepS), FieldSource::BuiltInDefault);
    apply_overrides(empty_overlay(), FieldSource::Scene, &mut values, &mut sources);
    assert_eq!(values.cfl_factor_bits, 0x3f00_0000);
    assert_eq!(sources.get(NumericalField::CflFactor), FieldSource::CommandLine);
}

#[test]
fn canonical_toml_keeps_names_and_descriptions_apart() {
    let sources = default_sources();
    let mut first = inspected();
    first.name = "first";
    first.description = "first prose";
    let mut second = inspected();
    second.name = "second";
    second.description = "different prose";
    assert_ne!(canonical_toml(&first, &sources), canonical_toml(&second, &sources));
    assert_eq!(canonical_toml(&first, &sources), canonical_toml(&first, &sources));
    let mut quoted_name = inspected();
    quoted_name.name = "a\\\"";
    quoted_name.description = "";
    let mut split_name = inspected();
    split_name.name = "a\\";
    split_name.description = "\"";
    assert_ne!(canonical_toml(&quoted_name, &sources), canonical_toml(&split_name, &sources));
}

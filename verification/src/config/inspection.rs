//! # Configuration inspection text
//!
//! The canonical TOML inspection of a resolved configuration: `key = value`
//! lines, quoted string values, bracketed lists, the `[numerical]`,
//! `[derived]` and `[provenance]` sections, and the whole document.
//!
//! Binary32 values enter as the texts that Rust's `{:?}` formatting gives
//! them (their shortest round-trip decimal form).

use vstd::prelude::*;

use super::resolved::{FieldSource, NumericalField, ValueSources, field_name, fields_in_name_order};
use crate::keys::{
    bool_text, decimal, lemma_decimal_free, lemma_decimal_injective, push_bool, push_decimal,
};
use crate::text::{lemma_quoted_text_prefix_free, lemma_split_at_first, quoted, quoted_text};

verus! {

/// The name under which a source is written in inspection output.
pub open spec fn source_name(source: FieldSource) -> Seq<char> {
    match source {
        FieldSource::BuiltInDefault => "built_in_default"@,
        FieldSource::ConfigurationFile => "configuration_file"@,
        FieldSource::Scene => "scene"@,
        FieldSource::CommandLine => "command_line"@,
    }
}

impl FieldSource {
    /// Returns the name under which this source is written in inspection output.
    pub fn as_str(self) -> (r: &'static str)
        ensures
            r@ == source_name(self),
    {
        match self {
            FieldSource::BuiltInDefault => "built_in_default",
            FieldSource::ConfigurationFile => "configuration_file",
            FieldSource::Scene => "scene",
            FieldSource::CommandLine => "command_line",
        }
    }
}

/// One `key = value` line.
pub open spec fn line_text(key: Seq<char>, value: Seq<char>) -> Seq<char> {
    key + " = "@ + value + "\n"@
}

/// Appends the line `key = value`.
pub fn push_line(output: &mut String, key: &str, value: &str)
    ensures
        final(output)@ == old(output)@ + line_text(key@, value@),
{
    output.append(key);
    output.append(" = ");
    output.append(value);
    output.append("\n");
    assert(output@ =~= old(output)@ + line_text(key@, value@));
}

/// Appends the line `key = "value"`, with `value` quoted.
pub fn push_string(output: &mut String, key: &str, value: &str)
    ensures
        final(output)@ == old(output)@ + line_text(key@, quoted_text(value@)),
{
    let quoted_value = quoted(value);
    push_line(output, key, quoted_value.as_str());
}

/// The provenance lines for the fields of `order`, in that order.
pub open spec fn provenance_text(sources: &ValueSources, order: Seq<NumericalField>) -> Seq<char>
    decreases order.len(),
{
    if order.len() == 0 {
        seq![]
    } else {
        provenance_text(sources, order.drop_last()) + line_text(
            field_name(order.last()),
            quoted_text(source_name(sources.source(order.last()))),
        )
    }
}

/// ### Appends the provenance section's lines
///
/// One `field = "source"` line per numerical field, in ascending byte order of
/// the field names.
pub fn push_provenance(output: &mut String, sources: &ValueSources)
    ensures
        final(output)@ == old(output)@ + provenance_text(sources, fields_in_name_order()),
{
    let order = NumericalField::all_in_name_order();
    let mut k: usize = 0;
    while k < order.len()
        invariant
            k <= order@.len(),
            order@ == fields_in_name_order(),
            output@ == old(output)@ + provenance_text(sources, order@.take(k as int)),
        decreases order@.len() - k,
    {
        let field = order[k];
        let source = sources.get(field);
        push_string(output, field.name(), source.as_str());
        assert(order@.take(k + 1).drop_last() =~= order@.take(k as int));
        assert(output@ =~= old(output)@ + provenance_text(sources, order@.take(k + 1)));
        k = k + 1;
    }
    assert(order@.take(order@.len() as int) =~= order@);
}

/// Appends the line `key = value` with `value` in decimal.
pub fn push_decimal_line(output: &mut String, key: &str, value: u64)
    ensures
        final(output)@ == old(output)@ + line_text(key@, decimal(value as nat)),
{
    output.append(key);
    output.append(" = ");
    push_decimal(output, value);
    output.append("\n");
    assert(output@ =~= old(output)@ + line_text(key@, decimal(value as nat)));
}

/// Appends the line `key = true` or `key = false`.
pub fn push_bool_line(output: &mut String, key: &str, value: bool)
    ensures
        final(output)@ == old(output)@ + line_text(key@, bool_text(value)),
{
    output.append(key);
    output.append(" = ");
    push_bool(output, value);
    output.append("\n");
    assert(output@ =~= old(output)@ + line_text(key@, bool_text(value)));
}

/// The characters of each text.
pub open spec fn text_views(items: Seq<&str>) -> Seq<Seq<char>> {
    items.map_values(|item: &str| item@)
}

/// Items separated by `, `.
pub open spec fn items_text(items: Seq<Seq<char>>) -> Seq<char>
    decreases items.len(),
{
    if items.len() == 0 {
        seq![]
    } else if items.len() == 1 {
        items[0]
    } else {
        items_text(items.drop_last()) + ", "@ + items.last()
    }
}

/// Items separated by `, ` between square brackets.
pub open spec fn bracketed(items: Seq<Seq<char>>) -> Seq<char> {
    "["@ + items_text(items) + "]"@
}

/// Appends `items` separated by `, ` between square brackets.
pub fn push_bracketed(output: &mut String, items: &[&str])
    ensures
        final(output)@ == old(output)@ + bracketed(text_views(items@)),
{
    output.append("[");
    let ghost start = output@;
    let mut k: usize = 0;
    while k < items.len()
        invariant
            k <= items@.len(),
            output@ == start + items_text(text_views(items@.take(k as int))),
        decreases items@.len() - k,
    {
        let ghost before = text_views(items@.take(k as int));
        if k > 0 {
            output.append(", ");
        }
        output.append(items[k]);
        proof {
            let after = text_views(items@.take(k + 1));
            assert(after.drop_last() =~= before);
            assert(after.last() == items@[k as int]@);
            if k == 0 {
                assert(before.len() == 0);
            }
        }
        assert(output@ =~= start + items_text(text_views(items@.take(k + 1))));
        k = k + 1;
    }
    assert(items@.take(items@.len() as int) =~= items@);
    output.append("]");
    assert(output@ =~= old(output)@ + bracketed(text_views(items@)));
}

/// Appends the line `key = [items]`.
pub fn push_bracketed_line(output: &mut String, key: &str, items: &[&str])
    ensures
        final(output)@ == old(output)@ + line_text(key@, bracketed(text_views(items@))),
{
    output.append(key);
    output.append(" = ");
    push_bracketed(output, items);
    output.append("\n");
    assert(output@ =~= old(output)@ + line_text(key@, bracketed(text_views(items@))));
}

/// The leading lines of an inspection: the schema version under `key`, then
/// the quoted name and description.
pub open spec fn header_text(key: Seq<char>, version: nat, name: Seq<char>, description: Seq<char>) -> Seq<char> {
    line_text(key, decimal(version)) + line_text("name"@, quoted_text(name)) + line_text(
        "description"@,
        quoted_text(description),
    )
}

/// Appends the leading lines of an inspection.
pub fn push_header(output: &mut String, key: &str, version: u32, name: &str, description: &str)
    ensures
        final(output)@ == old(output)@ + header_text(key@, version as nat, name@, description@),
{
    let mut text = String::new();
    push_decimal_line(&mut text, key, version as u64);
    assert(text@ =~= line_text(key@, decimal(version as nat)));
    push_string(&mut text, "name", name);
    push_string(&mut text, "description", description);
    output.append(text.as_str());
}

/// ### The leading lines determine the name and description
///
/// Two texts that start with inspection headers under the same key hold the
/// same name and the same description, and continue alike.
pub proof fn lemma_header_identifies_labels(
    key: Seq<char>,
    version_a: nat,
    name_a: Seq<char>,
    description_a: Seq<char>,
    rest_a: Seq<char>,
    version_b: nat,
    name_b: Seq<char>,
    description_b: Seq<char>,
    rest_b: Seq<char>,
)
    requires
        header_text(key, version_a, name_a, description_a) + rest_a == header_text(
            key,
            version_b,
            name_b,
            description_b,
        ) + rest_b,
    ensures
        version_a == version_b,
        name_a == name_b,
        description_a == description_b,
        rest_a == rest_b,
{
    reveal_strlit(" = ");
    reveal_strlit("\n");
    reveal_strlit("name");
    reveal_strlit("description");
    let w = header_text(key, version_a, name_a, description_a) + rest_a;
    let p = key + " = "@;
    let tail_a = "name = "@ + quoted_text(name_a) + seq!['\n'] + "description = "@ + quoted_text(
        description_a,
    ) + seq!['\n'] + rest_a;
    let tail_b = "name = "@ + quoted_text(name_b) + seq!['\n'] + "description = "@ + quoted_text(
        description_b,
    ) + seq!['\n'] + rest_b;
    reveal_strlit("name = ");
    reveal_strlit("description = ");
    assert("name = "@ =~= "name"@ + " = "@);
    assert("description = "@ =~= "description"@ + " = "@);
    assert(w =~= p + (decimal(version_a) + seq!['\n'] + tail_a));
    assert(w =~= p + (decimal(version_b) + seq!['\n'] + tail_b));
    assert(w.skip(p.len() as int) =~= decimal(version_a) + seq!['\n'] + tail_a);
    assert(w.skip(p.len() as int) =~= decimal(version_b) + seq!['\n'] + tail_b);
    lemma_decimal_free(version_a);
    lemma_decimal_free(version_b);
    lemma_split_at_first(decimal(version_a), tail_a, decimal(version_b), tail_b, '\n');
    lemma_decimal_injective(version_a, version_b);
    let after_a = seq!['\n'] + "description = "@ + quoted_text(description_a) + seq!['\n'] + rest_a;
    let after_b = seq!['\n'] + "description = "@ + quoted_text(description_b) + seq!['\n'] + rest_b;
    assert(tail_a.skip(7) =~= quoted_text(name_a) + after_a);
    assert(tail_b.skip(7) =~= quoted_text(name_b) + after_b);
    lemma_quoted_text_prefix_free(name_a, name_b, after_a, after_b);
    assert(after_a.skip(15) =~= quoted_text(description_a) + (seq!['\n'] + rest_a));
    assert(after_b.skip(15) =~= quoted_text(description_b) + (seq!['\n'] + rest_b));
    lemma_quoted_text_prefix_free(description_a, description_b, seq!['\n'] + rest_a, seq!['\n'] + rest_b);
    assert(rest_a =~= (seq!['\n'] + rest_a).skip(1));
    assert(rest_b =~= (seq!['\n'] + rest_b).skip(1));
}

/// ### The inspection text keeps the name and description apart
///
/// Two configurations whose inspection texts are equal have the same name
/// and the same description: the display labels are written in quotes that
/// can be read back.
pub proof fn lemma_canonical_toml_identifies_labels(
    a: InspectedConfiguration,
    sources_a: &ValueSources,
    b: InspectedConfiguration,
    sources_b: &ValueSources,
)
    requires
        canonical_toml_text(a, sources_a) == canonical_toml_text(b, sources_b),
    ensures
        a.name@ == b.name@,
        a.description@ == b.description@,
{
    lemma_header_identifies_labels(
        "schema_version"@,
        a.schema_version as nat,
        a.name@,
        a.description@,
        numerical_section_text(a) + derived_section_text(a) + "\n[provenance]\n"@ + provenance_text(
            sources_a,
            fields_in_name_order(),
        ),
        b.schema_version as nat,
        b.name@,
        b.description@,
        numerical_section_text(b) + derived_section_text(b) + "\n[provenance]\n"@ + provenance_text(
            sources_b,
            fields_in_name_order(),
        ),
    );
}

/// ### The values written in a configuration inspection
///
/// Binary32 values are given as the texts that `{:?}` formatting writes
/// for them.
#[derive(Clone, Copy, Debug)]
pub struct InspectedConfiguration<'a> {
    /// The configuration schema version.
    pub schema_version: u32,
    /// Display name.
    pub name: &'a str,
    /// Display description.
    pub description: &'a str,
    /// The `scalar_precision` policy.
    pub scalar_precision: &'a str,
    /// The `coordinate_system` policy.
    pub coordinate_system: &'a str,
    /// The `timestep_policy` policy.
    pub timestep_policy: &'a str,
    /// The `density_kernel` policy.
    pub density_kernel: &'a str,
    /// The `correction_kernel` policy.
    pub correction_kernel: &'a str,
    /// The `solver_update_policy` policy.
    pub solver_update_policy: &'a str,
    /// The external acceleration's components.
    pub external_acceleration_m_s2: [&'a str; 3],
    /// The fixed timestep.
    pub fixed_timestep_s: &'a str,
    /// The CFL factor.
    pub cfl_factor: &'a str,
    /// The particle spacing.
    pub particle_spacing_m: &'a str,
    /// The support-to-spacing ratio.
    pub support_radius_ratio: &'a str,
    /// The physical rest density.
    pub physical_rest_density_kg_m3: &'a str,
    /// The solver iteration count.
    pub solver_iterations: u32,
    /// The relaxation scale.
    pub relaxation_scale: &'a str,
    /// Whether artificial pressure is enabled.
    pub artificial_pressure_enabled: bool,
    /// The artificial-pressure strength scale.
    pub artificial_pressure_strength_scale: &'a str,
    /// The artificial-pressure reference separation ratio.
    pub artificial_pressure_reference_separation_ratio: &'a str,
    /// The artificial-pressure exponent.
    pub artificial_pressure_exponent: &'a str,
    /// The `support_policy` policy.
    pub support_policy: &'a str,
    /// The `boundary_model` policy.
    pub boundary_model: &'a str,
    /// The `neighbour_rebuild_policy` policy.
    pub neighbour_rebuild_policy: &'a str,
    /// The `particle_order_policy` policy.
    pub particle_order_policy: &'a str,
    /// Whether XSPH viscosity is enabled.
    pub xsph_viscosity_enabled: bool,
    /// Whether vorticity confinement is enabled.
    pub vorticity_confinement_enabled: bool,
    /// The derived particle diameter.
    pub particle_diameter_m: &'a str,
    /// The derived support radius.
    pub support_radius_m: &'a str,
    /// The derived normalised rest density.
    pub normalised_rest_density_per_m3: &'a str,
    /// The derived particle mass.
    pub particle_mass_kg: &'a str,
    /// The derived relaxation.
    pub relaxation_per_m2: &'a str,
    /// The derived artificial-pressure strength.
    pub artificial_pressure_strength_m2: &'a str,
    /// The derived artificial-pressure reference separation.
    pub artificial_pressure_reference_separation_m: &'a str,
    /// The derived lattice offset count.
    pub lattice_offset_count: usize,
}

/// The `[numerical]` section of an inspection, with its heading.
pub open spec fn numerical_section_text(c: InspectedConfiguration) -> Seq<char> {
    "\n[numerical]\n"@
        + line_text("scalar_precision"@, quoted_text(c.scalar_precision@))
        + line_text("coordinate_system"@, quoted_text(c.coordinate_system@))
        + line_text("timestep_policy"@, quoted_text(c.timestep_policy@))
        + line_text("density_kernel"@, quoted_text(c.density_kernel@))
        + line_text("correction_kernel"@, quoted_text(c.correction_kernel@))
        + line_text("solver_update_policy"@, quoted_text(c.solver_update_policy@))
        + line_text("external_acceleration_m_s2"@, bracketed(text_views(c.external_acceleration_m_s2@)))
        + line_text("fixed_timestep_s"@, c.fixed_timestep_s@)
        + line_text("cfl_factor"@, c.cfl_factor@)
        + line_text("particle_spacing_m"@, c.particle_spacing_m@)
        + line_text("support_radius_ratio"@, c.support_radius_ratio@)
        + line_text("physical_rest_density_kg_m3"@, c.physical_rest_density_kg_m3@)
        + line_text("solver_iterations"@, decimal(c.solver_iterations as nat))
        + line_text("relaxation_scale"@, c.relaxation_scale@)
        + line_text("artificial_pressure_enabled"@, bool_text(c.artificial_pressure_enabled))
        + line_text("artificial_pressure_strength_scale"@, c.artificial_pressure_strength_scale@)
        + line_text(
            "artificial_pressure_reference_separation_ratio"@,
            c.artificial_pressure_reference_separation_ratio@,
        )
        + line_text("artificial_pressure_exponent"@, c.artificial_pressure_exponent@)
        + line_text("support_policy"@, quoted_text(c.support_policy@))
        + line_text("boundary_model"@, quoted_text(c.boundary_model@))
        + line_text("neighbour_rebuild_policy"@, quoted_text(c.neighbour_rebuild_policy@))
        + line_text("particle_order_policy"@, quoted_text(c.particle_order_policy@))
        + line_text("xsph_viscosity_enabled"@, bool_text(c.xsph_viscosity_enabled))
        + line_text("vorticity_confinement_enabled"@, bool_text(c.vorticity_confinement_enabled))
}

/// The `[derived]` section of an inspection, with its heading.
pub open spec fn derived_section_text(c: InspectedConfiguration) -> Seq<char> {
    "\n[derived]\n"@
        + line_text("particle_diameter_m"@, c.particle_diameter_m@)
        + line_text("support_radius_m"@, c.support_radius_m@)
        + line_text("normalised_rest_density_per_m3"@, c.normalised_rest_density_per_m3@)
        + line_text("particle_mass_kg"@, c.particle_mass_kg@)
        + line_text("relaxation_per_m2"@, c.relaxation_per_m2@)
        + line_text("artificial_pressure_strength_m2"@, c.artificial_pressure_strength_m2@)
        + line_text(
            "artificial_pressure_reference_separation_m"@,
            c.artificial_pressure_reference_separation_m@,
        )
        + line_text("lattice_offset_count"@, decimal(c.lattice_offset_count as nat))
}

/// The canonical TOML inspection: header lines, then the `[numerical]`,
/// `[derived]` and `[provenance]` sections.
pub open spec fn canonical_toml_text(c: InspectedConfiguration, sources: &ValueSources) -> Seq<char> {
    header_text("schema_version"@, c.schema_version as nat, c.name@, c.description@) + (
    numerical_section_text(c) + derived_section_text(c) + "\n[provenance]\n"@ + provenance_text(
        sources,
        fields_in_name_order(),
    ))
}

fn push_numerical_section(output: &mut String, c: &InspectedConfiguration)
    ensures
        final(output)@ == old(output)@ + numerical_section_text(*c),
{
    let mut text = String::from_str("\n[numerical]\n");
    push_string(&mut text, "scalar_precision", c.scalar_precision);
    push_string(&mut text, "coordinate_system", c.coordinate_system);
    push_string(&mut text, "timestep_policy", c.timestep_policy);
    push_string(&mut text, "density_kernel", c.density_kernel);
    push_string(&mut text, "correction_kernel", c.correction_kernel);
    push_string(&mut text, "solver_update_policy", c.solver_update_policy);
    push_bracketed_line(&mut text, "external_acceleration_m_s2", &c.external_acceleration_m_s2);
    push_line(&mut text, "fixed_timestep_s", c.fixed_timestep_s);
    push_line(&mut text, "cfl_factor", c.cfl_factor);
    push_line(&mut text, "particle_spacing_m", c.particle_spacing_m);
    push_line(&mut text, "support_radius_ratio", c.support_radius_ratio);
    push_line(&mut text, "physical_rest_density_kg_m3", c.physical_rest_density_kg_m3);
    push_decimal_line(&mut text, "solver_iterations", c.solver_iterations as u64);
    push_line(&mut text, "relaxation_scale", c.relaxation_scale);
    push_bool_line(&mut text, "artificial_pressure_enabled", c.artificial_pressure_enabled);
    push_line(&mut text, "artificial_pressure_strength_scale", c.artificial_pressure_strength_scale);
    push_line(
        &mut text,
        "artificial_pressure_reference_separation_ratio",
        c.artificial_pressure_reference_separation_ratio,
    );
    push_line(&mut text, "artificial_pressure_exponent", c.artificial_pressure_exponent);
    push_string(&mut text, "support_policy", c.support_policy);
    push_string(&mut text, "boundary_model", c.boundary_model);
    push_string(&mut text, "neighbour_rebuild_policy", c.neighbour_rebuild_policy);
    push_string(&mut text, "particle_order_policy", c.particle_order_policy);
    push_bool_line(&mut text, "xsph_viscosity_enabled", c.xsph_viscosity_enabled);
    push_bool_line(&mut text, "vorticity_confinement_enabled", c.vorticity_confinement_enabled);
    assert(text@ == numerical_section_text(*c));
    output.append(text.as_str());
}

fn push_derived_section(output: &mut String, c: &InspectedConfiguration)
    ensures
        final(output)@ == old(output)@ + derived_section_text(*c),
{
    let mut text = String::from_str("\n[derived]\n");
    push_line(&mut text, "particle_diameter_m", c.particle_diameter_m);
    push_line(&mut text, "support_radius_m", c.support_radius_m);
    push_line(&mut text, "normalised_rest_density_per_m3", c.normalised_rest_density_per_m3);
    push_line(&mut text, "particle_mass_kg", c.particle_mass_kg);
    push_line(&mut text, "relaxation_per_m2", c.relaxation_per_m2);
    push_line(&mut text, "artificial_pressure_strength_m2", c.artificial_pressure_strength_m2);
    push_line(
        &mut text,
        "artificial_pressure_reference_separation_m",
        c.artificial_pressure_reference_separation_m,
    );
    push_decimal_line(&mut text, "lattice_offset_count", c.lattice_offset_count as u64);
    assert(text@ == derived_section_text(*c));
    output.append(text.as_str());
}

/// ### Writes TOML data that shows a configuration's values and their provenance
///
/// The schema version, name and description come first; then the
/// `[numerical]` values in declaration order, the `[derived]` values, and the
/// `[provenance]` section with one line per numerical field in ascending name
/// order.
pub fn canonical_toml(configuration: &InspectedConfiguration, sources: &ValueSources) -> (r: String)
    ensures
        r@ == canonical_toml_text(*configuration, sources),
{
    let mut output = String::new();
    push_header(
        &mut output,
        "schema_version",
        configuration.schema_version,
        configuration.name,
        configuration.description,
    );
    push_numerical_section(&mut output, configuration);
    push_derived_section(&mut output, configuration);
    output.append("\n[provenance]\n");
    push_provenance(&mut output, sources);
    proof {
        lemma_regroup(
            header_text(
                "schema_version"@,
                configuration.schema_version as nat,
                configuration.name@,
                configuration.description@,
            ),
            numerical_section_text(*configuration),
            derived_section_text(*configuration),
            "\n[provenance]\n"@,
            provenance_text(sources, fields_in_name_order()),
        );
    }
    output
}

proof fn lemma_regroup(h: Seq<char>, n: Seq<char>, d: Seq<char>, p: Seq<char>, q: Seq<char>)
    ensures
        Seq::<char>::empty() + h + n + d + p + q == h + (n + d + p + q),
{
    assert(Seq::<char>::empty() + h + n + d + p + q =~= h + (n + d + p + q));
}

} // verus!

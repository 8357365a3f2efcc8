//! # Reading an inspection back
//!
//! The canonical TOML inspection determines the configuration it was written
//! from: every line is `key = value` with a value that is either quoted, and
//! so ends at its first unescaped double quote, or free of line breaks.

use vstd::prelude::*;

use super::inspection::{
    InspectedConfiguration, bracketed, canonical_toml_text, derived_section_text, header_text,
    items_text, lemma_header_identifies_labels, line_text, numerical_section_text, provenance_text,
    text_views,
};
use super::resolved::{ValueSources, fields_in_name_order};
use crate::keys::{
    bool_text, decimal, lemma_bool_text_injective, lemma_decimal_free, lemma_decimal_injective,
};
use crate::text::{lemma_quoted_text_prefix_free, lemma_split_at_first, lemma_split_at_last, quoted_text};

verus! {

/// Lines appended one after another to `head`.
pub open spec fn fold_lines(head: Seq<char>, lines: Seq<Seq<char>>) -> Seq<char>
    decreases lines.len(),
{
    if lines.len() == 0 {
        head
    } else {
        fold_lines(head, lines.drop_last()) + lines.last()
    }
}

/// Lines one after another.
pub open spec fn joined_lines(lines: Seq<Seq<char>>) -> Seq<char>
    decreases lines.len(),
{
    if lines.len() == 0 {
        seq![]
    } else {
        lines[0] + joined_lines(lines.skip(1))
    }
}

/// `raw`, quoted when `quoted` holds.
pub open spec fn shown(quoted: bool, raw: Seq<char>) -> Seq<char> {
    if quoted {
        quoted_text(raw)
    } else {
        raw
    }
}

/// The `key = value` lines for `keys` and `raws`.
pub open spec fn keyed_lines(keys: Seq<Seq<char>>, quoted: Seq<bool>, raws: Seq<Seq<char>>) -> Seq<
    Seq<char>,
> {
    Seq::new(raws.len(), |i: int| line_text(keys[i], shown(quoted[i], raws[i])))
}

/// Appending a line to the lines appends its text.
pub proof fn lemma_fold_push(head: Seq<char>, lines: Seq<Seq<char>>, line: Seq<char>)
    ensures
        fold_lines(head, lines.push(line)) == fold_lines(head, lines) + line,
{
    assert(lines.push(line).drop_last() =~= lines);
}

/// The last line comes last.
pub proof fn lemma_joined_push(lines: Seq<Seq<char>>)
    requires
        lines.len() >= 1,
    ensures
        joined_lines(lines) == joined_lines(lines.drop_last()) + lines.last(),
    decreases lines.len(),
{
    if lines.len() == 1 {
        assert(lines.skip(1) =~= Seq::<Seq<char>>::empty());
        assert(lines.drop_last() =~= Seq::<Seq<char>>::empty());
        assert(joined_lines(lines.skip(1)) == Seq::<char>::empty());
        assert(joined_lines(lines.drop_last()) == Seq::<char>::empty());
        assert(joined_lines(lines) =~= lines[0]);
    } else {
        lemma_joined_push(lines.skip(1));
        assert(lines.skip(1).drop_last() =~= lines.drop_last().skip(1));
        assert(lines.skip(1).last() == lines.last());
        assert(lines.drop_last()[0] == lines[0]);
        assert(joined_lines(lines) =~= joined_lines(lines.drop_last()) + lines.last());
    }
}

/// Lines appended to a head are the head followed by the lines.
pub proof fn lemma_fold_is_joined(head: Seq<char>, lines: Seq<Seq<char>>)
    ensures
        fold_lines(head, lines) == head + joined_lines(lines),
    decreases lines.len(),
{
    if lines.len() == 0 {
        assert(head + joined_lines(lines) =~= head);
    } else {
        lemma_fold_is_joined(head, lines.drop_last());
        lemma_joined_push(lines);
        assert(fold_lines(head, lines) =~= head + joined_lines(lines));
    }
}

/// ### `key = value` lines are read back
///
/// Lines with the same keys whose unquoted values hold no line break, followed
/// by anything, determine their values and what follows them.
pub proof fn lemma_keyed_lines_read_back(
    keys: Seq<Seq<char>>,
    quoted: Seq<bool>,
    raws_a: Seq<Seq<char>>,
    tail_a: Seq<char>,
    raws_b: Seq<Seq<char>>,
    tail_b: Seq<char>,
)
    requires
        keys.len() == raws_a.len(),
        quoted.len() == raws_a.len(),
        raws_b.len() == raws_a.len(),
        forall|i: int|
            0 <= i < raws_a.len() && !quoted[i] ==> !(#[trigger] raws_a[i]).contains('\n')
                && !raws_b[i].contains('\n'),
        joined_lines(keyed_lines(keys, quoted, raws_a)) + tail_a == joined_lines(
            keyed_lines(keys, quoted, raws_b),
        ) + tail_b,
    ensures
        raws_a == raws_b,
        tail_a == tail_b,
    decreases raws_a.len(),
{
    reveal_strlit(" = ");
    reveal_strlit("\n");
    let la = keyed_lines(keys, quoted, raws_a);
    let lb = keyed_lines(keys, quoted, raws_b);
    if raws_a.len() == 0 {
        assert(joined_lines(la) + tail_a =~= tail_a);
        assert(joined_lines(lb) + tail_b =~= tail_b);
        assert(raws_a =~= raws_b);
    } else {
        assert(la.skip(1) =~= keyed_lines(keys.skip(1), quoted.skip(1), raws_a.skip(1)));
        assert(lb.skip(1) =~= keyed_lines(keys.skip(1), quoted.skip(1), raws_b.skip(1)));
        let key = keys[0] + " = "@;
        let va = shown(quoted[0], raws_a[0]);
        let vb = shown(quoted[0], raws_b[0]);
        let rest_a = joined_lines(la.skip(1)) + tail_a;
        let rest_b = joined_lines(lb.skip(1)) + tail_b;
        let w = joined_lines(la) + tail_a;
        assert(la[0] == line_text(keys[0], va));
        assert(lb[0] == line_text(keys[0], vb));
        assert(w =~= key + (va + seq!['\n'] + rest_a));
        assert(w =~= key + (vb + seq!['\n'] + rest_b));
        assert(w.skip(key.len() as int) =~= va + seq!['\n'] + rest_a);
        assert(w.skip(key.len() as int) =~= vb + seq!['\n'] + rest_b);
        if quoted[0] {
            assert(va + seq!['\n'] + rest_a =~= quoted_text(raws_a[0]) + (seq!['\n'] + rest_a));
            assert(vb + seq!['\n'] + rest_b =~= quoted_text(raws_b[0]) + (seq!['\n'] + rest_b));
            lemma_quoted_text_prefix_free(
                raws_a[0],
                raws_b[0],
                seq!['\n'] + rest_a,
                seq!['\n'] + rest_b,
            );
            assert(rest_a =~= (seq!['\n'] + rest_a).skip(1));
            assert(rest_b =~= (seq!['\n'] + rest_b).skip(1));
        } else {
            lemma_split_at_first(va, rest_a, vb, rest_b, '\n');
        }
        assert forall|i: int|
            0 <= i < raws_a.skip(1).len() && !quoted.skip(1)[i] implies !(
            #[trigger] raws_a.skip(1)[i]).contains('\n') && !raws_b.skip(1)[i].contains('\n') by {
            assert(raws_a.skip(1)[i] == raws_a[i + 1]);
            assert(raws_b.skip(1)[i] == raws_b[i + 1]);
            assert(quoted.skip(1)[i] == quoted[i + 1]);
        }
        lemma_keyed_lines_read_back(
            keys.skip(1),
            quoted.skip(1),
            raws_a.skip(1),
            tail_a,
            raws_b.skip(1),
            tail_b,
        );
        assert(raws_a =~= seq![raws_a[0]] + raws_a.skip(1));
        assert(raws_b =~= seq![raws_b[0]] + raws_b.skip(1));
    }
}

/// The keys of the `[numerical]` lines, in order.
pub open spec fn numerical_keys() -> Seq<Seq<char>> {
    seq![
        "scalar_precision"@,
        "coordinate_system"@,
        "timestep_policy"@,
        "density_kernel"@,
        "correction_kernel"@,
        "solver_update_policy"@,
        "external_acceleration_m_s2"@,
        "fixed_timestep_s"@,
        "cfl_factor"@,
        "particle_spacing_m"@,
        "support_radius_ratio"@,
        "physical_rest_density_kg_m3"@,
        "solver_iterations"@,
        "relaxation_scale"@,
        "artificial_pressure_enabled"@,
        "artificial_pressure_strength_scale"@,
        "artificial_pressure_reference_separation_ratio"@,
        "artificial_pressure_exponent"@,
        "support_policy"@,
        "boundary_model"@,
        "neighbour_rebuild_policy"@,
        "particle_order_policy"@,
        "xsph_viscosity_enabled"@,
        "vorticity_confinement_enabled"@,
    ]
}

/// Which `[numerical]` values are written quoted.
pub open spec fn numerical_quoted() -> Seq<bool> {
    seq![
        true,
        true,
        true,
        true,
        true,
        true,
        false,
        false,
        false,
        false,
        false,
        false,
        false,
        false,
        false,
        false,
        false,
        false,
        true,
        true,
        true,
        true,
        false,
        false,
    ]
}

/// The `[numerical]` values before quoting, in order.
pub open spec fn numerical_values(c: InspectedConfiguration) -> Seq<Seq<char>> {
    seq![
        c.scalar_precision@,
        c.coordinate_system@,
        c.timestep_policy@,
        c.density_kernel@,
        c.correction_kernel@,
        c.solver_update_policy@,
        bracketed(text_views(c.external_acceleration_m_s2@)),
        c.fixed_timestep_s@,
        c.cfl_factor@,
        c.particle_spacing_m@,
        c.support_radius_ratio@,
        c.physical_rest_density_kg_m3@,
        decimal(c.solver_iterations as nat),
        c.relaxation_scale@,
        bool_text(c.artificial_pressure_enabled),
        c.artificial_pressure_strength_scale@,
        c.artificial_pressure_reference_separation_ratio@,
        c.artificial_pressure_exponent@,
        c.support_policy@,
        c.boundary_model@,
        c.neighbour_rebuild_policy@,
        c.particle_order_policy@,
        bool_text(c.xsph_viscosity_enabled),
        bool_text(c.vorticity_confinement_enabled),
    ]
}

#[verifier::rlimit(50)]
proof fn lemma_numerical_lines(c: InspectedConfiguration)
    ensures
        numerical_section_text(c) == fold_lines("\n[numerical]\n"@, keyed_lines(numerical_keys(), numerical_quoted(), numerical_values(c))),
{
    let h = "\n[numerical]\n"@;
    let s0 = Seq::<Seq<char>>::empty();
    let s1 = s0.push(line_text("scalar_precision"@, quoted_text(c.scalar_precision@)));
    lemma_fold_push(h, s0, line_text("scalar_precision"@, quoted_text(c.scalar_precision@)));
    let s2 = s1.push(line_text("coordinate_system"@, quoted_text(c.coordinate_system@)));
    lemma_fold_push(h, s1, line_text("coordinate_system"@, quoted_text(c.coordinate_system@)));
    let s3 = s2.push(line_text("timestep_policy"@, quoted_text(c.timestep_policy@)));
    lemma_fold_push(h, s2, line_text("timestep_policy"@, quoted_text(c.timestep_policy@)));
    let s4 = s3.push(line_text("density_kernel"@, quoted_text(c.density_kernel@)));
    lemma_fold_push(h, s3, line_text("density_kernel"@, quoted_text(c.density_kernel@)));
    let s5 = s4.push(line_text("correction_kernel"@, quoted_text(c.correction_kernel@)));
    lemma_fold_push(h, s4, line_text("correction_kernel"@, quoted_text(c.correction_kernel@)));
    let s6 = s5.push(line_text("solver_update_policy"@, quoted_text(c.solver_update_policy@)));
    lemma_fold_push(h, s5, line_text("solver_update_policy"@, quoted_text(c.solver_update_policy@)));
    let s7 = s6.push(line_text("external_acceleration_m_s2"@, bracketed(text_views(c.external_acceleration_m_s2@))));
    lemma_fold_push(h, s6, line_text("external_acceleration_m_s2"@, bracketed(text_views(c.external_acceleration_m_s2@))));
    let s8 = s7.push(line_text("fixed_timestep_s"@, c.fixed_timestep_s@));
    lemma_fold_push(h, s7, line_text("fixed_timestep_s"@, c.fixed_timestep_s@));
    let s9 = s8.push(line_text("cfl_factor"@, c.cfl_factor@));
    lemma_fold_push(h, s8, line_text("cfl_factor"@, c.cfl_factor@));
    let s10 = s9.push(line_text("particle_spacing_m"@, c.particle_spacing_m@));
    lemma_fold_push(h, s9, line_text("particle_spacing_m"@, c.particle_spacing_m@));
    let s11 = s10.push(line_text("support_radius_ratio"@, c.support_radius_ratio@));
    lemma_fold_push(h, s10, line_text("support_radius_ratio"@, c.support_radius_ratio@));
    let s12 = s11.push(line_text("physical_rest_density_kg_m3"@, c.physical_rest_density_kg_m3@));
    lemma_fold_push(h, s11, line_text("physical_rest_density_kg_m3"@, c.physical_rest_density_kg_m3@));
    let s13 = s12.push(line_text("solver_iterations"@, decimal(c.solver_iterations as nat)));
    lemma_fold_push(h, s12, line_text("solver_iterations"@, decimal(c.solver_iterations as nat)));
    let s14 = s13.push(line_text("relaxation_scale"@, c.relaxation_scale@));
    lemma_fold_push(h, s13, line_text("relaxation_scale"@, c.relaxation_scale@));
    let s15 = s14.push(line_text("artificial_pressure_enabled"@, bool_text(c.artificial_pressure_enabled)));
    lemma_fold_push(h, s14, line_text("artificial_pressure_enabled"@, bool_text(c.artificial_pressure_enabled)));
    let s16 = s15.push(line_text("artificial_pressure_strength_scale"@, c.artificial_pressure_strength_scale@));
    lemma_fold_push(h, s15, line_text("artificial_pressure_strength_scale"@, c.artificial_pressure_strength_scale@));
    let s17 = s16.push(line_text("artificial_pressure_reference_separation_ratio"@, c.artificial_pressure_reference_separation_ratio@));
    lemma_fold_push(h, s16, line_text("artificial_pressure_reference_separation_ratio"@, c.artificial_pressure_reference_separation_ratio@));
    let s18 = s17.push(line_text("artificial_pressure_exponent"@, c.artificial_pressure_exponent@));
    lemma_fold_push(h, s17, line_text("artificial_pressure_exponent"@, c.artificial_pressure_exponent@));
    let s19 = s18.push(line_text("support_policy"@, quoted_text(c.support_policy@)));
    lemma_fold_push(h, s18, line_text("support_policy"@, quoted_text(c.support_policy@)));
    let s20 = s19.push(line_text("boundary_model"@, quoted_text(c.boundary_model@)));
    lemma_fold_push(h, s19, line_text("boundary_model"@, quoted_text(c.boundary_model@)));
    let s21 = s20.push(line_text("neighbour_rebuild_policy"@, quoted_text(c.neighbour_rebuild_policy@)));
    lemma_fold_push(h, s20, line_text("neighbour_rebuild_policy"@, quoted_text(c.neighbour_rebuild_policy@)));
    let s22 = s21.push(line_text("particle_order_policy"@, quoted_text(c.particle_order_policy@)));
    lemma_fold_push(h, s21, line_text("particle_order_policy"@, quoted_text(c.particle_order_policy@)));
    let s23 = s22.push(line_text("xsph_viscosity_enabled"@, bool_text(c.xsph_viscosity_enabled)));
    lemma_fold_push(h, s22, line_text("xsph_viscosity_enabled"@, bool_text(c.xsph_viscosity_enabled)));
    let s24 = s23.push(line_text("vorticity_confinement_enabled"@, bool_text(c.vorticity_confinement_enabled)));
    lemma_fold_push(h, s23, line_text("vorticity_confinement_enabled"@, bool_text(c.vorticity_confinement_enabled)));
    let kl = keyed_lines(numerical_keys(), numerical_quoted(), numerical_values(c));
    assert(kl[0] == s24[0]);
    assert(kl[1] == s24[1]);
    assert(kl[2] == s24[2]);
    assert(kl[3] == s24[3]);
    assert(kl[4] == s24[4]);
    assert(kl[5] == s24[5]);
    assert(kl[6] == s24[6]);
    assert(kl[7] == s24[7]);
    assert(kl[8] == s24[8]);
    assert(kl[9] == s24[9]);
    assert(kl[10] == s24[10]);
    assert(kl[11] == s24[11]);
    assert(kl[12] == s24[12]);
    assert(kl[13] == s24[13]);
    assert(kl[14] == s24[14]);
    assert(kl[15] == s24[15]);
    assert(kl[16] == s24[16]);
    assert(kl[17] == s24[17]);
    assert(kl[18] == s24[18]);
    assert(kl[19] == s24[19]);
    assert(kl[20] == s24[20]);
    assert(kl[21] == s24[21]);
    assert(kl[22] == s24[22]);
    assert(kl[23] == s24[23]);
    assert(kl =~= s24);
}

/// The keys of the `[derived]` lines, in order.
pub open spec fn derived_keys() -> Seq<Seq<char>> {
    seq![
        "particle_diameter_m"@,
        "support_radius_m"@,
        "normalised_rest_density_per_m3"@,
        "particle_mass_kg"@,
        "relaxation_per_m2"@,
        "artificial_pressure_strength_m2"@,
        "artificial_pressure_reference_separation_m"@,
        "lattice_offset_count"@,
    ]
}

/// Which `[derived]` values are written quoted.
pub open spec fn derived_quoted() -> Seq<bool> {
    seq![
        false,
        false,
        false,
        false,
        false,
        false,
        false,
        false,
    ]
}

/// The `[derived]` values before quoting, in order.
pub open spec fn derived_values(c: InspectedConfiguration) -> Seq<Seq<char>> {
    seq![
        c.particle_diameter_m@,
        c.support_radius_m@,
        c.normalised_rest_density_per_m3@,
        c.particle_mass_kg@,
        c.relaxation_per_m2@,
        c.artificial_pressure_strength_m2@,
        c.artificial_pressure_reference_separation_m@,
        decimal(c.lattice_offset_count as nat),
    ]
}

proof fn lemma_derived_lines(c: InspectedConfiguration)
    ensures
        derived_section_text(c) == fold_lines("\n[derived]\n"@, keyed_lines(derived_keys(), derived_quoted(), derived_values(c))),
{
    let h = "\n[derived]\n"@;
    let s0 = Seq::<Seq<char>>::empty();
    let s1 = s0.push(line_text("particle_diameter_m"@, c.particle_diameter_m@));
    lemma_fold_push(h, s0, line_text("particle_diameter_m"@, c.particle_diameter_m@));
    let s2 = s1.push(line_text("support_radius_m"@, c.support_radius_m@));
    lemma_fold_push(h, s1, line_text("support_radius_m"@, c.support_radius_m@));
    let s3 = s2.push(line_text("normalised_rest_density_per_m3"@, c.normalised_rest_density_per_m3@));
    lemma_fold_push(h, s2, line_text("normalised_rest_density_per_m3"@, c.normalised_rest_density_per_m3@));
    let s4 = s3.push(line_text("particle_mass_kg"@, c.particle_mass_kg@));
    lemma_fold_push(h, s3, line_text("particle_mass_kg"@, c.particle_mass_kg@));
    let s5 = s4.push(line_text("relaxation_per_m2"@, c.relaxation_per_m2@));
    lemma_fold_push(h, s4, line_text("relaxation_per_m2"@, c.relaxation_per_m2@));
    let s6 = s5.push(line_text("artificial_pressure_strength_m2"@, c.artificial_pressure_strength_m2@));
    lemma_fold_push(h, s5, line_text("artificial_pressure_strength_m2"@, c.artificial_pressure_strength_m2@));
    let s7 = s6.push(line_text("artificial_pressure_reference_separation_m"@, c.artificial_pressure_reference_separation_m@));
    lemma_fold_push(h, s6, line_text("artificial_pressure_reference_separation_m"@, c.artificial_pressure_reference_separation_m@));
    let s8 = s7.push(line_text("lattice_offset_count"@, decimal(c.lattice_offset_count as nat)));
    lemma_fold_push(h, s7, line_text("lattice_offset_count"@, decimal(c.lattice_offset_count as nat)));
    let kl = keyed_lines(derived_keys(), derived_quoted(), derived_values(c));
    assert(kl[0] == s8[0]);
    assert(kl[1] == s8[1]);
    assert(kl[2] == s8[2]);
    assert(kl[3] == s8[3]);
    assert(kl[4] == s8[4]);
    assert(kl[5] == s8[5]);
    assert(kl[6] == s8[6]);
    assert(kl[7] == s8[7]);
    assert(kl =~= s8);
}

/// Written without a line break or a comma, as `{:?}` writes a binary32 value.
pub open spec fn plain_value(text: Seq<char>) -> bool {
    !text.contains('\n') && !text.contains(',')
}

/// Every binary32 text of the configuration is plain.
pub open spec fn float_texts_plain(c: InspectedConfiguration) -> bool {
    &&& plain_value(c.fixed_timestep_s@)
    &&& plain_value(c.cfl_factor@)
    &&& plain_value(c.particle_spacing_m@)
    &&& plain_value(c.support_radius_ratio@)
    &&& plain_value(c.physical_rest_density_kg_m3@)
    &&& plain_value(c.relaxation_scale@)
    &&& plain_value(c.artificial_pressure_strength_scale@)
    &&& plain_value(c.artificial_pressure_reference_separation_ratio@)
    &&& plain_value(c.artificial_pressure_exponent@)
    &&& plain_value(c.particle_diameter_m@)
    &&& plain_value(c.support_radius_m@)
    &&& plain_value(c.normalised_rest_density_per_m3@)
    &&& plain_value(c.particle_mass_kg@)
    &&& plain_value(c.relaxation_per_m2@)
    &&& plain_value(c.artificial_pressure_strength_m2@)
    &&& plain_value(c.artificial_pressure_reference_separation_m@)
    &&& plain_value(c.external_acceleration_m_s2[0]@)
    &&& plain_value(c.external_acceleration_m_s2[1]@)
    &&& plain_value(c.external_acceleration_m_s2[2]@)
}

/// Two configurations hold the same values (binary32 values by their texts).
pub open spec fn same_inspected_values(a: InspectedConfiguration, b: InspectedConfiguration) -> bool {
    &&& a.schema_version == b.schema_version
    &&& a.name@ == b.name@
    &&& a.description@ == b.description@
    &&& a.scalar_precision@ == b.scalar_precision@
    &&& a.coordinate_system@ == b.coordinate_system@
    &&& a.timestep_policy@ == b.timestep_policy@
    &&& a.density_kernel@ == b.density_kernel@
    &&& a.correction_kernel@ == b.correction_kernel@
    &&& a.solver_update_policy@ == b.solver_update_policy@
    &&& a.external_acceleration_m_s2[0]@ == b.external_acceleration_m_s2[0]@
    &&& a.external_acceleration_m_s2[1]@ == b.external_acceleration_m_s2[1]@
    &&& a.external_acceleration_m_s2[2]@ == b.external_acceleration_m_s2[2]@
    &&& a.fixed_timestep_s@ == b.fixed_timestep_s@
    &&& a.cfl_factor@ == b.cfl_factor@
    &&& a.particle_spacing_m@ == b.particle_spacing_m@
    &&& a.support_radius_ratio@ == b.support_radius_ratio@
    &&& a.physical_rest_density_kg_m3@ == b.physical_rest_density_kg_m3@
    &&& a.solver_iterations == b.solver_iterations
    &&& a.relaxation_scale@ == b.relaxation_scale@
    &&& a.artificial_pressure_enabled == b.artificial_pressure_enabled
    &&& a.artificial_pressure_strength_scale@ == b.artificial_pressure_strength_scale@
    &&& a.artificial_pressure_reference_separation_ratio@ == b.artificial_pressure_reference_separation_ratio@
    &&& a.artificial_pressure_exponent@ == b.artificial_pressure_exponent@
    &&& a.support_policy@ == b.support_policy@
    &&& a.boundary_model@ == b.boundary_model@
    &&& a.neighbour_rebuild_policy@ == b.neighbour_rebuild_policy@
    &&& a.particle_order_policy@ == b.particle_order_policy@
    &&& a.xsph_viscosity_enabled == b.xsph_viscosity_enabled
    &&& a.vorticity_confinement_enabled == b.vorticity_confinement_enabled
    &&& a.particle_diameter_m@ == b.particle_diameter_m@
    &&& a.support_radius_m@ == b.support_radius_m@
    &&& a.normalised_rest_density_per_m3@ == b.normalised_rest_density_per_m3@
    &&& a.particle_mass_kg@ == b.particle_mass_kg@
    &&& a.relaxation_per_m2@ == b.relaxation_per_m2@
    &&& a.artificial_pressure_strength_m2@ == b.artificial_pressure_strength_m2@
    &&& a.artificial_pressure_reference_separation_m@ == b.artificial_pressure_reference_separation_m@
    &&& a.lattice_offset_count == b.lattice_offset_count
}

proof fn lemma_bool_text_plain(b: bool)
    ensures
        !bool_text(b).contains('\n'),
{
    reveal_strlit("true");
    reveal_strlit("false");
    assert forall|i: int| 0 <= i < bool_text(b).len() implies bool_text(b)[i] != '\n' by {}
}

proof fn lemma_bracketed_shape(a: [&str; 3])
    ensures
        bracketed(text_views(a@)) == "["@ + a[0]@ + ", "@ + a[1]@ + ", "@ + a[2]@ + "]"@,
{
    let tv = text_views(a@);
    let t2 = tv.drop_last();
    let t1 = t2.drop_last();
    assert(tv.len() == 3);
    assert(t1.len() == 1);
    assert(t1[0] == a[0]@);
    assert(t2.last() == a[1]@);
    assert(tv.last() == a[2]@);
    assert(items_text(t1) == a[0]@);
    assert(items_text(t2) == items_text(t1) + ", "@ + t2.last());
    assert(items_text(tv) == items_text(t2) + ", "@ + tv.last());
    assert(bracketed(tv) =~= "["@ + a[0]@ + ", "@ + a[1]@ + ", "@ + a[2]@ + "]"@);
}

proof fn lemma_bracketed_plain(a: [&str; 3])
    requires
        plain_value(a[0]@),
        plain_value(a[1]@),
        plain_value(a[2]@),
    ensures
        !bracketed(text_views(a@)).contains('\n'),
{
    reveal_strlit("[");
    reveal_strlit("]");
    reveal_strlit(", ");
    lemma_bracketed_shape(a);
    let t = "["@ + a[0]@ + ", "@ + a[1]@ + ", "@ + a[2]@ + "]"@;
    let n0 = a[0]@.len() as int;
    let n1 = a[1]@.len() as int;
    assert forall|i: int| 0 <= i < t.len() implies t[i] != '\n' by {
        if 1 <= i < 1 + n0 {
            assert(t[i] == a[0]@[i - 1]);
        } else if 3 + n0 <= i < 3 + n0 + n1 {
            assert(t[i] == a[1]@[i - 3 - n0]);
        } else if 5 + n0 + n1 <= i < t.len() - 1 {
            assert(t[i] == a[2]@[i - 5 - n0 - n1]);
        }
    }
}

proof fn lemma_bracketed_read_back(a: [&str; 3], b: [&str; 3])
    requires
        plain_value(a[0]@),
        plain_value(a[1]@),
        plain_value(a[2]@),
        plain_value(b[0]@),
        plain_value(b[1]@),
        plain_value(b[2]@),
        bracketed(text_views(a@)) == bracketed(text_views(b@)),
    ensures
        a[0]@ == b[0]@,
        a[1]@ == b[1]@,
        a[2]@ == b[2]@,
{
    reveal_strlit("[");
    reveal_strlit("]");
    reveal_strlit(", ");
    lemma_bracketed_shape(a);
    lemma_bracketed_shape(b);
    let w = bracketed(text_views(a@));
    let ra = seq![' '] + a[1]@ + ", "@ + a[2]@ + "]"@;
    let rb = seq![' '] + b[1]@ + ", "@ + b[2]@ + "]"@;
    assert(w.skip(1) =~= a[0]@ + seq![','] + ra);
    assert(w.skip(1) =~= b[0]@ + seq![','] + rb);
    lemma_split_at_first(a[0]@, ra, b[0]@, rb, ',');
    let sa = seq![' '] + a[2]@ + "]"@;
    let sb = seq![' '] + b[2]@ + "]"@;
    assert(ra.skip(1) =~= a[1]@ + seq![','] + sa);
    assert(rb.skip(1) =~= b[1]@ + seq![','] + sb);
    lemma_split_at_first(a[1]@, sa, b[1]@, sb, ',');
    assert(a[2]@ =~= sa.skip(1).drop_last());
    assert(b[2]@ =~= sb.skip(1).drop_last());
}

proof fn lemma_regroup_sections(
    heading: Seq<char>,
    lines: Seq<char>,
    second: Seq<char>,
    third: Seq<char>,
    fourth: Seq<char>,
)
    ensures
        (heading + lines) + second + third + fourth == heading + (lines + (second + third + fourth)),
{
    assert((heading + lines) + second + third + fourth =~= heading + (lines + (second + third
        + fourth)));
}

proof fn lemma_regroup_derived(heading: Seq<char>, lines: Seq<char>, second: Seq<char>, third: Seq<char>)
    ensures
        (heading + lines) + second + third == heading + (lines + (second + third)),
{
    assert((heading + lines) + second + third =~= heading + (lines + (second + third)));
}

proof fn lemma_numerical_values_plain(c: InspectedConfiguration)
    requires
        float_texts_plain(c),
    ensures
        forall|i: int|
            0 <= i < numerical_values(c).len() && !numerical_quoted()[i] ==> !(#[trigger] numerical_values(
                c,
            )[i]).contains('\n'),
{
    lemma_bracketed_plain(c.external_acceleration_m_s2);
    lemma_decimal_free(c.solver_iterations as nat);
    lemma_bool_text_plain(c.artificial_pressure_enabled);
    lemma_bool_text_plain(c.xsph_viscosity_enabled);
    lemma_bool_text_plain(c.vorticity_confinement_enabled);
    assert forall|i: int|
        0 <= i < numerical_values(c).len() && !numerical_quoted()[i] implies !(#[trigger] numerical_values(
            c,
        )[i]).contains('\n') by {
        if i == 0 {
            assert(numerical_values(c)[i] == numerical_values(c)[0]);
        } else if i == 1 {
            assert(numerical_values(c)[i] == numerical_values(c)[1]);
        } else if i == 2 {
            assert(numerical_values(c)[i] == numerical_values(c)[2]);
        } else if i == 3 {
            assert(numerical_values(c)[i] == numerical_values(c)[3]);
        } else if i == 4 {
            assert(numerical_values(c)[i] == numerical_values(c)[4]);
        } else if i == 5 {
            assert(numerical_values(c)[i] == numerical_values(c)[5]);
        } else if i == 6 {
            assert(numerical_values(c)[i] == numerical_values(c)[6]);
        } else if i == 7 {
            assert(numerical_values(c)[i] == numerical_values(c)[7]);
        } else if i == 8 {
            assert(numerical_values(c)[i] == numerical_values(c)[8]);
        } else if i == 9 {
            assert(numerical_values(c)[i] == numerical_values(c)[9]);
        } else if i == 10 {
            assert(numerical_values(c)[i] == numerical_values(c)[10]);
        } else if i == 11 {
            assert(numerical_values(c)[i] == numerical_values(c)[11]);
        } else if i == 12 {
            assert(numerical_values(c)[i] == numerical_values(c)[12]);
        } else if i == 13 {
            assert(numerical_values(c)[i] == numerical_values(c)[13]);
        } else if i == 14 {
            assert(numerical_values(c)[i] == numerical_values(c)[14]);
        } else if i == 15 {
            assert(numerical_values(c)[i] == numerical_values(c)[15]);
        } else if i == 16 {
            assert(numerical_values(c)[i] == numerical_values(c)[16]);
        } else if i == 17 {
            assert(numerical_values(c)[i] == numerical_values(c)[17]);
        } else if i == 18 {
            assert(numerical_values(c)[i] == numerical_values(c)[18]);
        } else if i == 19 {
            assert(numerical_values(c)[i] == numerical_values(c)[19]);
        } else if i == 20 {
            assert(numerical_values(c)[i] == numerical_values(c)[20]);
        } else if i == 21 {
            assert(numerical_values(c)[i] == numerical_values(c)[21]);
        } else if i == 22 {
            assert(numerical_values(c)[i] == numerical_values(c)[22]);
        } else if i == 23 {
            assert(numerical_values(c)[i] == numerical_values(c)[23]);
        }
    }
}

proof fn lemma_derived_values_plain(c: InspectedConfiguration)
    requires
        float_texts_plain(c),
    ensures
        forall|i: int|
            0 <= i < derived_values(c).len() && !derived_quoted()[i] ==> !(#[trigger] derived_values(
                c,
            )[i]).contains('\n'),
{
    lemma_decimal_free(c.lattice_offset_count as nat);
    assert forall|i: int|
        0 <= i < derived_values(c).len() && !derived_quoted()[i] implies !(#[trigger] derived_values(
            c,
        )[i]).contains('\n') by {
        if i == 0 {
            assert(derived_values(c)[i] == derived_values(c)[0]);
        } else if i == 1 {
            assert(derived_values(c)[i] == derived_values(c)[1]);
        } else if i == 2 {
            assert(derived_values(c)[i] == derived_values(c)[2]);
        } else if i == 3 {
            assert(derived_values(c)[i] == derived_values(c)[3]);
        } else if i == 4 {
            assert(derived_values(c)[i] == derived_values(c)[4]);
        } else if i == 5 {
            assert(derived_values(c)[i] == derived_values(c)[5]);
        } else if i == 6 {
            assert(derived_values(c)[i] == derived_values(c)[6]);
        } else if i == 7 {
            assert(derived_values(c)[i] == derived_values(c)[7]);
        }
    }
}

proof fn lemma_numerical_values_identify(a: InspectedConfiguration, b: InspectedConfiguration)
    requires
        float_texts_plain(a),
        float_texts_plain(b),
        numerical_values(a) == numerical_values(b),
    ensures
        a.scalar_precision@ == b.scalar_precision@,
        a.coordinate_system@ == b.coordinate_system@,
        a.timestep_policy@ == b.timestep_policy@,
        a.density_kernel@ == b.density_kernel@,
        a.correction_kernel@ == b.correction_kernel@,
        a.solver_update_policy@ == b.solver_update_policy@,
        a.external_acceleration_m_s2[0]@ == b.external_acceleration_m_s2[0]@,
        a.external_acceleration_m_s2[1]@ == b.external_acceleration_m_s2[1]@,
        a.external_acceleration_m_s2[2]@ == b.external_acceleration_m_s2[2]@,
        a.fixed_timestep_s@ == b.fixed_timestep_s@,
        a.cfl_factor@ == b.cfl_factor@,
        a.particle_spacing_m@ == b.particle_spacing_m@,
        a.support_radius_ratio@ == b.support_radius_ratio@,
        a.physical_rest_density_kg_m3@ == b.physical_rest_density_kg_m3@,
        a.solver_iterations == b.solver_iterations,
        a.relaxation_scale@ == b.relaxation_scale@,
        a.artificial_pressure_enabled == b.artificial_pressure_enabled,
        a.artificial_pressure_strength_scale@ == b.artificial_pressure_strength_scale@,
        a.artificial_pressure_reference_separation_ratio@ == b.artificial_pressure_reference_separation_ratio@,
        a.artificial_pressure_exponent@ == b.artificial_pressure_exponent@,
        a.support_policy@ == b.support_policy@,
        a.boundary_model@ == b.boundary_model@,
        a.neighbour_rebuild_policy@ == b.neighbour_rebuild_policy@,
        a.particle_order_policy@ == b.particle_order_policy@,
        a.xsph_viscosity_enabled == b.xsph_viscosity_enabled,
        a.vorticity_confinement_enabled == b.vorticity_confinement_enabled,
{
    assert(numerical_values(a)[0] == numerical_values(b)[0]);
    assert(numerical_values(a)[1] == numerical_values(b)[1]);
    assert(numerical_values(a)[2] == numerical_values(b)[2]);
    assert(numerical_values(a)[3] == numerical_values(b)[3]);
    assert(numerical_values(a)[4] == numerical_values(b)[4]);
    assert(numerical_values(a)[5] == numerical_values(b)[5]);
    assert(numerical_values(a)[6] == numerical_values(b)[6]);
    lemma_bracketed_read_back(a.external_acceleration_m_s2, b.external_acceleration_m_s2);
    assert(numerical_values(a)[7] == numerical_values(b)[7]);
    assert(numerical_values(a)[8] == numerical_values(b)[8]);
    assert(numerical_values(a)[9] == numerical_values(b)[9]);
    assert(numerical_values(a)[10] == numerical_values(b)[10]);
    assert(numerical_values(a)[11] == numerical_values(b)[11]);
    assert(numerical_values(a)[12] == numerical_values(b)[12]);
    lemma_decimal_injective(a.solver_iterations as nat, b.solver_iterations as nat);
    assert(numerical_values(a)[13] == numerical_values(b)[13]);
    assert(numerical_values(a)[14] == numerical_values(b)[14]);
    lemma_bool_text_injective(a.artificial_pressure_enabled, b.artificial_pressure_enabled);
    assert(numerical_values(a)[15] == numerical_values(b)[15]);
    assert(numerical_values(a)[16] == numerical_values(b)[16]);
    assert(numerical_values(a)[17] == numerical_values(b)[17]);
    assert(numerical_values(a)[18] == numerical_values(b)[18]);
    assert(numerical_values(a)[19] == numerical_values(b)[19]);
    assert(numerical_values(a)[20] == numerical_values(b)[20]);
    assert(numerical_values(a)[21] == numerical_values(b)[21]);
    assert(numerical_values(a)[22] == numerical_values(b)[22]);
    lemma_bool_text_injective(a.xsph_viscosity_enabled, b.xsph_viscosity_enabled);
    assert(numerical_values(a)[23] == numerical_values(b)[23]);
    lemma_bool_text_injective(a.vorticity_confinement_enabled, b.vorticity_confinement_enabled);
}

#[verifier::rlimit(100)]
proof fn lemma_numerical_read_back(
    a: InspectedConfiguration,
    tail_a: Seq<char>,
    b: InspectedConfiguration,
    tail_b: Seq<char>,
)
    requires
        float_texts_plain(a),
        float_texts_plain(b),
        numerical_section_text(a) + tail_a == numerical_section_text(b) + tail_b,
    ensures
        a.scalar_precision@ == b.scalar_precision@,
        a.coordinate_system@ == b.coordinate_system@,
        a.timestep_policy@ == b.timestep_policy@,
        a.density_kernel@ == b.density_kernel@,
        a.correction_kernel@ == b.correction_kernel@,
        a.solver_update_policy@ == b.solver_update_policy@,
        a.external_acceleration_m_s2[0]@ == b.external_acceleration_m_s2[0]@,
        a.external_acceleration_m_s2[1]@ == b.external_acceleration_m_s2[1]@,
        a.external_acceleration_m_s2[2]@ == b.external_acceleration_m_s2[2]@,
        a.fixed_timestep_s@ == b.fixed_timestep_s@,
        a.cfl_factor@ == b.cfl_factor@,
        a.particle_spacing_m@ == b.particle_spacing_m@,
        a.support_radius_ratio@ == b.support_radius_ratio@,
        a.physical_rest_density_kg_m3@ == b.physical_rest_density_kg_m3@,
        a.solver_iterations == b.solver_iterations,
        a.relaxation_scale@ == b.relaxation_scale@,
        a.artificial_pressure_enabled == b.artificial_pressure_enabled,
        a.artificial_pressure_strength_scale@ == b.artificial_pressure_strength_scale@,
        a.artificial_pressure_reference_separation_ratio@ == b.artificial_pressure_reference_separation_ratio@,
        a.artificial_pressure_exponent@ == b.artificial_pressure_exponent@,
        a.support_policy@ == b.support_policy@,
        a.boundary_model@ == b.boundary_model@,
        a.neighbour_rebuild_policy@ == b.neighbour_rebuild_policy@,
        a.particle_order_policy@ == b.particle_order_policy@,
        a.xsph_viscosity_enabled == b.xsph_viscosity_enabled,
        a.vorticity_confinement_enabled == b.vorticity_confinement_enabled,
        tail_a == tail_b,
{
    let h = "\n[numerical]\n"@;
    let ka = keyed_lines(numerical_keys(), numerical_quoted(), numerical_values(a));
    let kb = keyed_lines(numerical_keys(), numerical_quoted(), numerical_values(b));
    lemma_numerical_lines(a);
    lemma_numerical_lines(b);
    lemma_fold_is_joined(h, ka);
    lemma_fold_is_joined(h, kb);
    let w = numerical_section_text(a) + tail_a;
    assert(w =~= h + (joined_lines(ka) + tail_a));
    assert(w =~= h + (joined_lines(kb) + tail_b));
    assert(w.skip(h.len() as int) =~= joined_lines(ka) + tail_a);
    assert(w.skip(h.len() as int) =~= joined_lines(kb) + tail_b);
    lemma_numerical_values_plain(a);
    lemma_numerical_values_plain(b);
    lemma_keyed_lines_read_back(
        numerical_keys(),
        numerical_quoted(),
        numerical_values(a),
        tail_a,
        numerical_values(b),
        tail_b,
    );
    lemma_numerical_values_identify(a, b);
}

proof fn lemma_derived_values_identify(a: InspectedConfiguration, b: InspectedConfiguration)
    requires
        float_texts_plain(a),
        float_texts_plain(b),
        derived_values(a) == derived_values(b),
    ensures
        a.particle_diameter_m@ == b.particle_diameter_m@,
        a.support_radius_m@ == b.support_radius_m@,
        a.normalised_rest_density_per_m3@ == b.normalised_rest_density_per_m3@,
        a.particle_mass_kg@ == b.particle_mass_kg@,
        a.relaxation_per_m2@ == b.relaxation_per_m2@,
        a.artificial_pressure_strength_m2@ == b.artificial_pressure_strength_m2@,
        a.artificial_pressure_reference_separation_m@ == b.artificial_pressure_reference_separation_m@,
        a.lattice_offset_count == b.lattice_offset_count,
{
    assert(derived_values(a)[0] == derived_values(b)[0]);
    assert(derived_values(a)[1] == derived_values(b)[1]);
    assert(derived_values(a)[2] == derived_values(b)[2]);
    assert(derived_values(a)[3] == derived_values(b)[3]);
    assert(derived_values(a)[4] == derived_values(b)[4]);
    assert(derived_values(a)[5] == derived_values(b)[5]);
    assert(derived_values(a)[6] == derived_values(b)[6]);
    assert(derived_values(a)[7] == derived_values(b)[7]);
    lemma_decimal_injective(a.lattice_offset_count as nat, b.lattice_offset_count as nat);
}

proof fn lemma_derived_read_back(
    a: InspectedConfiguration,
    tail_a: Seq<char>,
    b: InspectedConfiguration,
    tail_b: Seq<char>,
)
    requires
        float_texts_plain(a),
        float_texts_plain(b),
        derived_section_text(a) + tail_a == derived_section_text(b) + tail_b,
    ensures
        a.particle_diameter_m@ == b.particle_diameter_m@,
        a.support_radius_m@ == b.support_radius_m@,
        a.normalised_rest_density_per_m3@ == b.normalised_rest_density_per_m3@,
        a.particle_mass_kg@ == b.particle_mass_kg@,
        a.relaxation_per_m2@ == b.relaxation_per_m2@,
        a.artificial_pressure_strength_m2@ == b.artificial_pressure_strength_m2@,
        a.artificial_pressure_reference_separation_m@ == b.artificial_pressure_reference_separation_m@,
        a.lattice_offset_count == b.lattice_offset_count,
        tail_a == tail_b,
{
    let h = "\n[derived]\n"@;
    let ka = keyed_lines(derived_keys(), derived_quoted(), derived_values(a));
    let kb = keyed_lines(derived_keys(), derived_quoted(), derived_values(b));
    lemma_derived_lines(a);
    lemma_derived_lines(b);
    lemma_fold_is_joined(h, ka);
    lemma_fold_is_joined(h, kb);
    let w = derived_section_text(a) + tail_a;
    assert(w =~= h + (joined_lines(ka) + tail_a));
    assert(w =~= h + (joined_lines(kb) + tail_b));
    assert(w.skip(h.len() as int) =~= joined_lines(ka) + tail_a);
    assert(w.skip(h.len() as int) =~= joined_lines(kb) + tail_b);
    lemma_derived_values_plain(a);
    lemma_derived_values_plain(b);
    lemma_keyed_lines_read_back(
        derived_keys(),
        derived_quoted(),
        derived_values(a),
        tail_a,
        derived_values(b),
        tail_b,
    );
    lemma_derived_values_identify(a, b);
}

/// ### The inspection text determines the configuration
///
/// Two configurations whose binary32 texts are written as `{:?}` writes them
/// (without line breaks or commas) and whose canonical TOML texts are equal
/// hold the same schema version, name, description, policies, switches,
/// counts and binary32 texts: every value line is read back from the text.
#[verifier::rlimit(100)]
pub proof fn lemma_canonical_toml_identifies_configuration(
    a: InspectedConfiguration,
    sources_a: &ValueSources,
    b: InspectedConfiguration,
    sources_b: &ValueSources,
)
    requires
        float_texts_plain(a),
        float_texts_plain(b),
        canonical_toml_text(a, sources_a) == canonical_toml_text(b, sources_b),
    ensures
        same_inspected_values(a, b),
{
    let heading = "\n[provenance]\n"@;
    let pa = provenance_text(sources_a, fields_in_name_order());
    let pb = provenance_text(sources_b, fields_in_name_order());
    let da = derived_section_text(a);
    let db = derived_section_text(b);
    lemma_header_identifies_labels(
        "schema_version"@,
        a.schema_version as nat,
        a.name@,
        a.description@,
        numerical_section_text(a) + da + heading + pa,
        b.schema_version as nat,
        b.name@,
        b.description@,
        numerical_section_text(b) + db + heading + pb,
    );
    assert(numerical_section_text(a) + da + heading + pa =~= numerical_section_text(a) + (da + (
    heading + pa)));
    assert(numerical_section_text(b) + db + heading + pb =~= numerical_section_text(b) + (db + (
    heading + pb)));
    lemma_numerical_read_back(a, da + (heading + pa), b, db + (heading + pb));
    lemma_derived_read_back(a, heading + pa, b, heading + pb);
}

/// ### Comma-free items are read back from their list
///
/// Two equally long lists of items without commas give the same `, `
/// separated text only when they are the same list.
pub proof fn lemma_items_read_back(xs: Seq<Seq<char>>, ys: Seq<Seq<char>>)
    requires
        xs.len() == ys.len(),
        forall|i: int| 0 <= i < xs.len() ==> !(#[trigger] xs[i]).contains(','),
        forall|i: int| 0 <= i < ys.len() ==> !(#[trigger] ys[i]).contains(','),
        items_text(xs) == items_text(ys),
    ensures
        xs == ys,
    decreases xs.len(),
{
    reveal_strlit(", ");
    if xs.len() <= 1 {
        assert(xs =~= ys);
    } else {
        let ta = seq![' '] + xs.last();
        let tb = seq![' '] + ys.last();
        assert(items_text(xs) =~= items_text(xs.drop_last()) + seq![','] + ta);
        assert(items_text(ys) =~= items_text(ys.drop_last()) + seq![','] + tb);
        assert(!xs[xs.len() - 1].contains(','));
        assert(!ys[ys.len() - 1].contains(','));
        assert forall|k: int| 0 <= k < ta.len() implies ta[k] != ',' by {
            if k > 0 {
                assert(ta[k] == xs.last()[k - 1]);
            }
        }
        assert forall|k: int| 0 <= k < tb.len() implies tb[k] != ',' by {
            if k > 0 {
                assert(tb[k] == ys.last()[k - 1]);
            }
        }
        lemma_split_at_last(items_text(xs.drop_last()), ta, items_text(ys.drop_last()), tb, ',');
        assert forall|i: int| 0 <= i < xs.drop_last().len() implies !(
        #[trigger] xs.drop_last()[i]).contains(',') by {
            assert(xs.drop_last()[i] == xs[i]);
        }
        assert forall|i: int| 0 <= i < ys.drop_last().len() implies !(
        #[trigger] ys.drop_last()[i]).contains(',') by {
            assert(ys.drop_last()[i] == ys[i]);
        }
        lemma_items_read_back(xs.drop_last(), ys.drop_last());
        assert(xs.last() =~= ta.skip(1));
        assert(ys.last() =~= tb.skip(1));
        assert(xs =~= xs.drop_last().push(xs.last()));
        assert(ys =~= ys.drop_last().push(ys.last()));
    }
}

/// Items without line breaks give a list without line breaks.
pub proof fn lemma_items_without_line_breaks(xs: Seq<Seq<char>>)
    requires
        forall|i: int| 0 <= i < xs.len() ==> !(#[trigger] xs[i]).contains('\n'),
    ensures
        !items_text(xs).contains('\n'),
        !bracketed(xs).contains('\n'),
    decreases xs.len(),
{
    reveal_strlit(", ");
    reveal_strlit("[");
    reveal_strlit("]");
    if xs.len() > 1 {
        assert forall|i: int| 0 <= i < xs.drop_last().len() implies !(
        #[trigger] xs.drop_last()[i]).contains('\n') by {
            assert(xs.drop_last()[i] == xs[i]);
        }
        lemma_items_without_line_breaks(xs.drop_last());
        let p = items_text(xs.drop_last());
        let t = items_text(xs);
        assert(!xs[xs.len() - 1].contains('\n'));
        assert(t =~= p + ", "@ + xs.last());
        assert forall|k: int| 0 <= k < t.len() implies t[k] != '\n' by {
            if k < p.len() {
                assert(t[k] == p[k]);
            } else if k >= p.len() + 2 {
                assert(t[k] == xs.last()[k - p.len() - 2]);
            }
        }
    } else if xs.len() == 1 {
        assert(!xs[0].contains('\n'));
    }
    let t = items_text(xs);
    let b = bracketed(xs);
    assert forall|k: int| 0 <= k < b.len() implies b[k] != '\n' by {
        if 1 <= k < b.len() - 1 {
            assert(b[k] == t[k - 1]);
        }
    }
}

/// ### Comma-free items are read back from their bracketed list
pub proof fn lemma_bracketed_items_read_back(xs: Seq<Seq<char>>, ys: Seq<Seq<char>>)
    requires
        xs.len() == ys.len(),
        forall|i: int| 0 <= i < xs.len() ==> !(#[trigger] xs[i]).contains(','),
        forall|i: int| 0 <= i < ys.len() ==> !(#[trigger] ys[i]).contains(','),
        bracketed(xs) == bracketed(ys),
    ensures
        xs == ys,
{
    reveal_strlit("[");
    reveal_strlit("]");
    assert(items_text(xs) =~= bracketed(xs).skip(1).drop_last());
    assert(items_text(ys) =~= bracketed(ys).skip(1).drop_last());
    lemma_items_read_back(xs, ys);
}

} // verus!

//! # Comparison keys
//!
//! Stable text keys that identify a resolved configuration or scene by its
//! values. Binary32 values enter a key through their IEEE-754 bit patterns,
//! written as eight lowercase hexadecimal digits; counts are written in
//! decimal; fields are separated by `|`.

use vstd::prelude::*;

use crate::config::{
    BOUNDARY_MODEL, COORDINATE_SYSTEM, CORRECTION_KERNEL, DENSITY_KERNEL, NEIGHBOUR_REBUILD_POLICY,
    PARTICLE_ORDER_POLICY, POLICY_FIELD_COUNT, SCALAR_PRECISION, SOLVER_UPDATE_POLICY, SUPPORT_POLICY,
    TIMESTEP_POLICY, policy_differs,
};

verus! {

/// The lowercase hexadecimal digit for `d` (and the decimal digit when `d < 10`).
pub open spec fn hex_digit(d: int) -> char {
    if d == 0 {
        '0'
    } else if d == 1 {
        '1'
    } else if d == 2 {
        '2'
    } else if d == 3 {
        '3'
    } else if d == 4 {
        '4'
    } else if d == 5 {
        '5'
    } else if d == 6 {
        '6'
    } else if d == 7 {
        '7'
    } else if d == 8 {
        '8'
    } else if d == 9 {
        '9'
    } else if d == 10 {
        'a'
    } else if d == 11 {
        'b'
    } else if d == 12 {
        'c'
    } else if d == 13 {
        'd'
    } else if d == 14 {
        'e'
    } else {
        'f'
    }
}

/// A digit character, never a field or item separator.
pub open spec fn is_digit_char(c: char) -> bool {
    exists|d: int| 0 <= d < 16 && c == hex_digit(d)
}

/// The low `n` hexadecimal digits of `v`, most significant first.
pub open spec fn hex_digits(v: nat, n: nat) -> Seq<char>
    decreases n,
{
    if n == 0 {
        seq![]
    } else {
        hex_digits(v / 16, (n - 1) as nat).push(hex_digit((v % 16) as int))
    }
}

/// `v` as eight zero-padded lowercase hexadecimal digits.
pub open spec fn hex8(v: u32) -> Seq<char> {
    hex_digits(v as nat, 8)
}

/// `v` in decimal without leading zeros.
pub open spec fn decimal(v: nat) -> Seq<char>
    decreases v,
{
    if v < 10 {
        seq![hex_digit(v as int)]
    } else {
        decimal(v / 10).push(hex_digit((v % 10) as int))
    }
}

/// `true` or `false`.
pub open spec fn bool_text(b: bool) -> Seq<char> {
    if b {
        "true"@
    } else {
        "false"@
    }
}

/// `16` to the power `n`.
pub open spec fn pow16(n: nat) -> nat
    decreases n,
{
    if n == 0 {
        1
    } else {
        16 * pow16((n - 1) as nat)
    }
}

proof fn lemma_hex_digit_injective(a: int, b: int)
    requires
        0 <= a < 16,
        0 <= b < 16,
        hex_digit(a) == hex_digit(b),
    ensures
        a == b,
{
}

proof fn lemma_hex_digits_shape(v: nat, n: nat)
    ensures
        hex_digits(v, n).len() == n,
        forall|i: int| 0 <= i < n ==> is_digit_char(#[trigger] hex_digits(v, n)[i]),
    decreases n,
{
    if n > 0 {
        lemma_hex_digits_shape(v / 16, (n - 1) as nat);
        let last = hex_digits(v, n).len() - 1;
        assert(hex_digits(v, n)[last] == hex_digit((v % 16) as int));
        assert(is_digit_char(hex_digit((v % 16) as int)));
    }
}

proof fn lemma_decimal_shape(v: nat)
    ensures
        decimal(v).len() >= 1,
        v >= 10 ==> decimal(v).len() >= 2,
        forall|i: int| 0 <= i < decimal(v).len() ==> is_digit_char(#[trigger] decimal(v)[i]),
    decreases v,
{
    if v < 10 {
        assert(is_digit_char(hex_digit(v as int)));
    } else {
        lemma_decimal_shape(v / 10);
        let last = decimal(v).len() - 1;
        assert(decimal(v)[last] == hex_digit((v % 10) as int));
        assert(is_digit_char(hex_digit((v % 10) as int)));
    }
}

/// ### Hexadecimal digits determine the value
///
/// Two values below `16^n` with the same `n` hexadecimal digits are equal.
pub proof fn lemma_hex_digits_injective(a: nat, b: nat, n: nat)
    requires
        a < pow16(n),
        b < pow16(n),
        hex_digits(a, n) == hex_digits(b, n),
    ensures
        a == b,
    decreases n,
{
    if n > 0 {
        let da = hex_digits(a, n);
        let db = hex_digits(b, n);
        assert(da.last() == db.last());
        lemma_hex_digit_injective((a % 16) as int, (b % 16) as int);
        assert(da.drop_last() =~= hex_digits(a / 16, (n - 1) as nat));
        assert(db.drop_last() =~= hex_digits(b / 16, (n - 1) as nat));
        assert(a / 16 < pow16((n - 1) as nat)) by (nonlinear_arith)
            requires
                a < 16 * pow16((n - 1) as nat),
        ;
        assert(b / 16 < pow16((n - 1) as nat)) by (nonlinear_arith)
            requires
                b < 16 * pow16((n - 1) as nat),
        ;
        lemma_hex_digits_injective(a / 16, b / 16, (n - 1) as nat);
    }
}

/// ### Eight hexadecimal digits determine a 32-bit value
pub proof fn lemma_hex8_injective(a: u32, b: u32)
    requires
        hex8(a) == hex8(b),
    ensures
        a == b,
{
    reveal_with_fuel(pow16, 9);
    assert(pow16(8) == 4294967296);
    lemma_hex_digits_injective(a as nat, b as nat, 8);
}

/// ### Decimal digits determine the value
pub proof fn lemma_decimal_injective(a: nat, b: nat)
    requires
        decimal(a) == decimal(b),
    ensures
        a == b,
    decreases a,
{
    lemma_decimal_shape(a);
    lemma_decimal_shape(b);
    if a < 10 && b < 10 {
        assert(decimal(a)[0] == hex_digit(a as int));
        assert(decimal(b)[0] == hex_digit(b as int));
        lemma_hex_digit_injective(a as int, b as int);
    } else if a >= 10 && b >= 10 {
        let da = decimal(a);
        let db = decimal(b);
        assert(da.last() == db.last());
        lemma_hex_digit_injective((a % 10) as int, (b % 10) as int);
        assert(da.drop_last() =~= decimal(a / 10));
        assert(db.drop_last() =~= decimal(b / 10));
        lemma_decimal_injective(a / 10, b / 10);
    }
}

/// Appends the digit character for `d`.
fn push_digit(output: &mut String, d: u32)
    requires
        d < 16,
    ensures
        final(output)@ == old(output)@ + seq![hex_digit(d as int)],
{
    let table = "0123456789abcdef";
    proof {
        reveal_strlit("0123456789abcdef");
    }
    let single = table.substring_char(d as usize, d as usize + 1);
    assert(single@ =~= seq![hex_digit(d as int)]);
    output.append(single);
}

fn push_hex_digits(output: &mut String, v: u32, n: u32)
    ensures
        final(output)@ == old(output)@ + hex_digits(v as nat, n as nat),
    decreases n,
{
    if n > 0 {
        push_hex_digits(output, v / 16, n - 1);
        push_digit(output, v % 16);
        assert(output@ =~= old(output)@ + hex_digits(v as nat, n as nat));
    } else {
        assert(output@ =~= old(output)@ + hex_digits(v as nat, n as nat));
    }
}

/// Appends `v` as eight zero-padded lowercase hexadecimal digits.
pub fn push_hex8(output: &mut String, v: u32)
    ensures
        final(output)@ == old(output)@ + hex8(v),
{
    push_hex_digits(output, v, 8);
}

/// Appends `v` in decimal.
pub fn push_decimal(output: &mut String, v: u64)
    ensures
        final(output)@ == old(output)@ + decimal(v as nat),
    decreases v,
{
    if v >= 10 {
        push_decimal(output, v / 10);
    }
    push_digit(output, (v % 10) as u32);
    assert(output@ =~= old(output)@ + decimal(v as nat));
}

/// Appends `true` or `false`.
pub fn push_bool(output: &mut String, b: bool)
    ensures
        final(output)@ == old(output)@ + bool_text(b),
{
    if b {
        output.append("true");
    } else {
        output.append("false");
    }
}

/// `tokens` written one after another with `separator` between neighbours.
pub open spec fn joined(tokens: Seq<Seq<char>>, separator: char) -> Seq<char>
    decreases tokens.len(),
{
    if tokens.len() == 0 {
        seq![]
    } else if tokens.len() == 1 {
        tokens[0]
    } else {
        joined(tokens.drop_last(), separator) + seq![separator] + tokens.last()
    }
}

/// No token contains the separator.
pub open spec fn separator_free(tokens: Seq<Seq<char>>, separator: char) -> bool {
    forall|i: int| 0 <= i < tokens.len() ==> !(#[trigger] tokens[i]).contains(separator)
}

/// ### Joining separator-free tokens can be undone
///
/// Two lists of tokens that never contain the separator, both empty or both
/// non-empty, give the same joined text only when they are the same list.
pub proof fn lemma_joined_injective(t1: Seq<Seq<char>>, t2: Seq<Seq<char>>, separator: char)
    requires
        t1.len() > 0 <==> t2.len() > 0,
        separator_free(t1, separator),
        separator_free(t2, separator),
        joined(t1, separator) == joined(t2, separator),
    ensures
        t1 == t2,
    decreases t1.len() + t2.len(),
{
    if t1.len() == 0 {
        assert(t1 =~= t2);
    } else if t1.len() == 1 && t2.len() == 1 {
        assert(t1 =~= t2);
    } else if t1.len() == 1 {
        let p2 = joined(t2.drop_last(), separator);
        assert(joined(t2, separator)[p2.len() as int] == separator);
        assert(t1[0][p2.len() as int] == separator);
        assert(t1[0].contains(separator));
    } else if t2.len() == 1 {
        let p1 = joined(t1.drop_last(), separator);
        assert(joined(t1, separator)[p1.len() as int] == separator);
        assert(t2[0][p1.len() as int] == separator);
        assert(t2[0].contains(separator));
    } else {
        let j = joined(t1, separator);
        let l1 = t1.last();
        let l2 = t2.last();
        let p1 = joined(t1.drop_last(), separator);
        let p2 = joined(t2.drop_last(), separator);
        assert(!t1[t1.len() - 1].contains(separator));
        assert(!t2[t2.len() - 1].contains(separator));
        assert(j == p1 + seq![separator] + l1);
        assert(j == p2 + seq![separator] + l2);
        if l1.len() < l2.len() {
            let k = j.len() - l1.len() - 1;
            assert(j[k] == separator);
            assert(l2[k - p2.len() - 1] == j[k]);
            assert(l2.contains(separator));
        } else if l2.len() < l1.len() {
            let k = j.len() - l2.len() - 1;
            assert(j[k] == separator);
            assert(l1[k - p1.len() - 1] == j[k]);
            assert(l1.contains(separator));
        }
        assert(l1 =~= j.subrange(j.len() - l1.len(), j.len() as int));
        assert(l2 =~= j.subrange(j.len() - l2.len(), j.len() as int));
        assert(p1 =~= j.subrange(0, p1.len() as int));
        assert(p2 =~= j.subrange(0, p2.len() as int));
        assert forall|i: int| 0 <= i < t1.drop_last().len() implies !(#[trigger] t1.drop_last()[i]).contains(
            separator,
        ) by {
            assert(t1.drop_last()[i] == t1[i]);
        }
        assert forall|i: int| 0 <= i < t2.drop_last().len() implies !(#[trigger] t2.drop_last()[i]).contains(
            separator,
        ) by {
            assert(t2.drop_last()[i] == t2[i]);
        }
        lemma_joined_injective(t1.drop_last(), t2.drop_last(), separator);
        assert(t1 =~= t1.drop_last().push(l1));
        assert(t2 =~= t2.drop_last().push(l2));
    }
}

/// `|` is not one of the characters of `s`.
proof fn lemma_digits_free(s: Seq<char>)
    requires
        forall|i: int| 0 <= i < s.len() ==> is_digit_char(#[trigger] s[i]),
    ensures
        !s.contains('|'),
        !s.contains(','),
        !s.contains(':'),
        !s.contains('\n'),
        !s.contains(' '),
{
    assert forall|i: int| 0 <= i < s.len() implies s[i] != '|' && s[i] != ',' && s[i] != ':' && s[i]
        != '\n' && s[i] != ' ' by {
        assert(is_digit_char(s[i]));
    }
}

proof fn lemma_hex8_free(v: u32)
    ensures
        hex8(v).len() == 8,
        !hex8(v).contains('|'),
        !hex8(v).contains(','),
        !hex8(v).contains(':'),
{
    lemma_hex_digits_shape(v as nat, 8);
    lemma_digits_free(hex8(v));
}

/// Decimal digits contain no separator and no line break.
pub proof fn lemma_decimal_free(v: nat)
    ensures
        !decimal(v).contains('|'),
        !decimal(v).contains(':'),
        !decimal(v).contains('\n'),
        !decimal(v).contains(' '),
{
    lemma_decimal_shape(v);
    lemma_digits_free(decimal(v));
}

proof fn lemma_bool_text_free(b: bool)
    ensures
        !bool_text(b).contains('|'),
{
    reveal_strlit("true");
    reveal_strlit("false");
    assert(!bool_text(b).contains('|')) by {
        assert forall|i: int| 0 <= i < bool_text(b).len() implies bool_text(b)[i] != '|' by {
        }
    }
}

/// ### `true` and `false` are told apart
pub proof fn lemma_bool_text_injective(a: bool, b: bool)
    requires
        bool_text(a) == bool_text(b),
    ensures
        a == b,
{
    reveal_strlit("true");
    reveal_strlit("false");
    assert("true"@.len() == 4);
    assert("false"@.len() == 5);
    if a != b {
        assert(bool_text(a).len() != bool_text(b).len());
    }
}

/// Three bit patterns written as hexadecimal and separated by commas.
pub open spec fn vec3_text(bits: [u32; 3]) -> Seq<char> {
    hex8(bits[0]) + seq![','] + hex8(bits[1]) + seq![','] + hex8(bits[2])
}

proof fn lemma_vec3_text_free(bits: [u32; 3])
    ensures
        !vec3_text(bits).contains('|'),
{
    lemma_hex8_free(bits[0]);
    lemma_hex8_free(bits[1]);
    lemma_hex8_free(bits[2]);
    let t = vec3_text(bits);
    assert forall|i: int| 0 <= i < t.len() implies t[i] != '|' by {
        if i < 8 {
            assert(t[i] == hex8(bits[0])[i]);
        } else if i == 8 || i == 17 {
        } else if i < 17 {
            assert(t[i] == hex8(bits[1])[i - 9]);
        } else {
            assert(t[i] == hex8(bits[2])[i - 18]);
        }
    }
}

/// ### Three comma-separated hexadecimal values determine the bit patterns
pub proof fn lemma_vec3_text_injective(a: [u32; 3], b: [u32; 3])
    requires
        vec3_text(a) == vec3_text(b),
    ensures
        a[0] == b[0],
        a[1] == b[1],
        a[2] == b[2],
{
    lemma_hex8_free(a[0]);
    lemma_hex8_free(a[1]);
    lemma_hex8_free(a[2]);
    lemma_hex8_free(b[0]);
    lemma_hex8_free(b[1]);
    lemma_hex8_free(b[2]);
    let ta = vec3_text(a);
    let tb = vec3_text(b);
    assert(hex8(a[0]) =~= ta.subrange(0, 8));
    assert(hex8(b[0]) =~= tb.subrange(0, 8));
    assert(hex8(a[1]) =~= ta.subrange(9, 17));
    assert(hex8(b[1]) =~= tb.subrange(9, 17));
    assert(hex8(a[2]) =~= ta.subrange(18, 26));
    assert(hex8(b[2]) =~= tb.subrange(18, 26));
    lemma_hex8_injective(a[0], b[0]);
    lemma_hex8_injective(a[1], b[1]);
    lemma_hex8_injective(a[2], b[2]);
}

/// ### The values that identify a resolved configuration
///
/// Binary32 values are given by their IEEE-754 bit patterns.
#[derive(Clone, Copy, Debug)]
pub struct ConfigurationIdentity<'a> {
    /// The `scalar_precision` policy.
    pub scalar_precision: &'a str,
    /// The `coordinate_system` policy.
    pub coordinate_system: &'a str,
    /// The `timestep_policy` policy.
    pub timestep_policy: &'a str,
    /// The `density_kernel` policy.
    pub density_kernel: &'a str,
    /// The `correction_kernel` policy.
    pub correction_kernel: &'a str,
    /// The `solver_update_policy` policy.
    pub solver_update_policy: &'a str,
    /// Bits of the external acceleration components.
    pub external_acceleration_m_s2_bits: [u32; 3],
    /// Bits of `fixed_timestep_s`.
    pub fixed_timestep_s_bits: u32,
    /// Bits of `cfl_factor`.
    pub cfl_factor_bits: u32,
    /// Bits of `particle_spacing_m`.
    pub particle_spacing_m_bits: u32,
    /// Bits of `support_radius_ratio`.
    pub support_radius_ratio_bits: u32,
    /// Bits of `physical_rest_density_kg_m3`.
    pub physical_rest_density_kg_m3_bits: u32,
    /// The solver iteration count.
    pub solver_iterations: u32,
    /// Bits of `relaxation_scale`.
    pub relaxation_scale_bits: u32,
    /// Whether artificial pressure is enabled.
    pub artificial_pressure_enabled: bool,
    /// Bits of `artificial_pressure_strength_scale`.
    pub artificial_pressure_strength_scale_bits: u32,
    /// Bits of `artificial_pressure_reference_separation_ratio`.
    pub artificial_pressure_reference_separation_ratio_bits: u32,
    /// Bits of `artificial_pressure_exponent`.
    pub artificial_pressure_exponent_bits: u32,
    /// The `support_policy` policy.
    pub support_policy: &'a str,
    /// The `boundary_model` policy.
    pub boundary_model: &'a str,
    /// The `neighbour_rebuild_policy` policy.
    pub neighbour_rebuild_policy: &'a str,
    /// The `particle_order_policy` policy.
    pub particle_order_policy: &'a str,
    /// Whether XSPH viscosity is enabled.
    pub xsph_viscosity_enabled: bool,
    /// Whether vorticity confinement is enabled.
    pub vorticity_confinement_enabled: bool,
    /// Bits of the derived values, in order: particle diameter, support radius,
    /// normalised rest density, particle mass, relaxation, artificial-pressure
    /// strength, artificial-pressure reference separation.
    pub derived_bits: [u32; 7],
    /// Number of lattice offsets in the equilibrium density sum.
    pub lattice_offset_count: usize,
}

/// The fields of a configuration comparison key, in order.
pub open spec fn configuration_key_tokens(v: ConfigurationIdentity) -> Seq<Seq<char>> {
    seq![
        "configuration-comparison-v1"@,
        v.scalar_precision@,
        v.coordinate_system@,
        v.timestep_policy@,
        v.density_kernel@,
        v.correction_kernel@,
        v.solver_update_policy@,
        vec3_text(v.external_acceleration_m_s2_bits),
        hex8(v.fixed_timestep_s_bits),
        hex8(v.cfl_factor_bits),
        hex8(v.particle_spacing_m_bits),
        hex8(v.support_radius_ratio_bits),
        hex8(v.physical_rest_density_kg_m3_bits),
        decimal(v.solver_iterations as nat),
        hex8(v.relaxation_scale_bits),
        bool_text(v.artificial_pressure_enabled),
        hex8(v.artificial_pressure_strength_scale_bits),
        hex8(v.artificial_pressure_reference_separation_ratio_bits),
        hex8(v.artificial_pressure_exponent_bits),
        v.support_policy@,
        v.boundary_model@,
        v.neighbour_rebuild_policy@,
        v.particle_order_policy@,
        bool_text(v.xsph_viscosity_enabled),
        bool_text(v.vorticity_confinement_enabled),
        hex8(v.derived_bits[0]),
        hex8(v.derived_bits[1]),
        hex8(v.derived_bits[2]),
        hex8(v.derived_bits[3]),
        hex8(v.derived_bits[4]),
        hex8(v.derived_bits[5]),
        hex8(v.derived_bits[6]),
        decimal(v.lattice_offset_count as nat)
    ]
}

/// The configuration comparison key: its fields separated by `|`.
pub open spec fn configuration_key(v: ConfigurationIdentity) -> Seq<char> {
    joined(configuration_key_tokens(v), '|')
}

proof fn lemma_joined_push(tokens: Seq<Seq<char>>, token: Seq<char>, separator: char)
    requires
        tokens.len() >= 1,
    ensures
        joined(tokens.push(token), separator) == joined(tokens, separator) + seq![separator] + token,
{
    assert(tokens.push(token).drop_last() =~= tokens);
}

fn push_separator(output: &mut String)
    ensures
        final(output)@ == old(output)@ + seq!['|'],
{
    let bar = "|";
    proof {
        reveal_strlit("|");
    }
    output.append(bar);
}

fn push_text_field(output: &mut String, tokens: Ghost<Seq<Seq<char>>>, text: &str) -> (next: Ghost<
    Seq<Seq<char>>,
>)
    requires
        tokens@.len() >= 1,
        old(output)@ == joined(tokens@, '|'),
    ensures
        next@ == tokens@.push(text@),
        final(output)@ == joined(next@, '|'),
{
    push_separator(output);
    output.append(text);
    proof {
        lemma_joined_push(tokens@, text@, '|');
    }
    assert(output@ =~= joined(tokens@.push(text@), '|'));
    Ghost(tokens@.push(text@))
}

fn push_hex_field(output: &mut String, tokens: Ghost<Seq<Seq<char>>>, bits: u32) -> (next: Ghost<
    Seq<Seq<char>>,
>)
    requires
        tokens@.len() >= 1,
        old(output)@ == joined(tokens@, '|'),
    ensures
        next@ == tokens@.push(hex8(bits)),
        final(output)@ == joined(next@, '|'),
{
    push_separator(output);
    push_hex8(output, bits);
    proof {
        lemma_joined_push(tokens@, hex8(bits), '|');
    }
    assert(output@ =~= joined(tokens@.push(hex8(bits)), '|'));
    Ghost(tokens@.push(hex8(bits)))
}

fn push_decimal_field(output: &mut String, tokens: Ghost<Seq<Seq<char>>>, value: u64) -> (next: Ghost<
    Seq<Seq<char>>,
>)
    requires
        tokens@.len() >= 1,
        old(output)@ == joined(tokens@, '|'),
    ensures
        next@ == tokens@.push(decimal(value as nat)),
        final(output)@ == joined(next@, '|'),
{
    push_separator(output);
    push_decimal(output, value);
    proof {
        lemma_joined_push(tokens@, decimal(value as nat), '|');
    }
    assert(output@ =~= joined(tokens@.push(decimal(value as nat)), '|'));
    Ghost(tokens@.push(decimal(value as nat)))
}

fn push_bool_field(output: &mut String, tokens: Ghost<Seq<Seq<char>>>, value: bool) -> (next: Ghost<
    Seq<Seq<char>>,
>)
    requires
        tokens@.len() >= 1,
        old(output)@ == joined(tokens@, '|'),
    ensures
        next@ == tokens@.push(bool_text(value)),
        final(output)@ == joined(next@, '|'),
{
    push_separator(output);
    push_bool(output, value);
    proof {
        lemma_joined_push(tokens@, bool_text(value), '|');
    }
    assert(output@ =~= joined(tokens@.push(bool_text(value)), '|'));
    Ghost(tokens@.push(bool_text(value)))
}

/// Appends three bit patterns as comma-separated hexadecimal.
pub fn push_vec3_bits(output: &mut String, bits: [u32; 3])
    ensures
        final(output)@ == old(output)@ + vec3_text(bits),
{
    let comma = ",";
    proof {
        reveal_strlit(",");
    }
    push_hex8(output, bits[0]);
    output.append(comma);
    push_hex8(output, bits[1]);
    output.append(comma);
    push_hex8(output, bits[2]);
    assert(output@ =~= old(output)@ + vec3_text(bits));
}

fn push_vec3_field(output: &mut String, tokens: Ghost<Seq<Seq<char>>>, bits: [u32; 3]) -> (next: Ghost<
    Seq<Seq<char>>,
>)
    requires
        tokens@.len() >= 1,
        old(output)@ == joined(tokens@, '|'),
    ensures
        next@ == tokens@.push(vec3_text(bits)),
        final(output)@ == joined(next@, '|'),
{
    push_separator(output);
    push_vec3_bits(output, bits);
    proof {
        lemma_joined_push(tokens@, vec3_text(bits), '|');
    }
    assert(output@ =~= joined(tokens@.push(vec3_text(bits)), '|'));
    Ghost(tokens@.push(vec3_text(bits)))
}

/// ### Builds the key used to compare two resolved configurations
///
/// The key holds the policies, the bit patterns of every numerical and derived
/// value, the solver iteration and lattice offset counts and the switches,
/// and nothing else (no names, descriptions or provenance).
pub fn configuration_comparison_key(identity: &ConfigurationIdentity) -> (r: String)
    ensures
        r@ == configuration_key(*identity),
{
    let header = "configuration-comparison-v1";
    let mut output = String::from_str(header);
    let ghost first: Seq<Seq<char>> = seq![header@];
    let t: Ghost<Seq<Seq<char>>> = Ghost(first);
    assert(output@ == joined(t@, '|'));
    let t = push_text_field(&mut output, t, identity.scalar_precision);
    let t = push_text_field(&mut output, t, identity.coordinate_system);
    let t = push_text_field(&mut output, t, identity.timestep_policy);
    let t = push_text_field(&mut output, t, identity.density_kernel);
    let t = push_text_field(&mut output, t, identity.correction_kernel);
    let t = push_text_field(&mut output, t, identity.solver_update_policy);
    let t = push_vec3_field(&mut output, t, identity.external_acceleration_m_s2_bits);
    let t = push_hex_field(&mut output, t, identity.fixed_timestep_s_bits);
    let t = push_hex_field(&mut output, t, identity.cfl_factor_bits);
    let t = push_hex_field(&mut output, t, identity.particle_spacing_m_bits);
    let t = push_hex_field(&mut output, t, identity.support_radius_ratio_bits);
    let t = push_hex_field(&mut output, t, identity.physical_rest_density_kg_m3_bits);
    let t = push_decimal_field(&mut output, t, identity.solver_iterations as u64);
    let t = push_hex_field(&mut output, t, identity.relaxation_scale_bits);
    let t = push_bool_field(&mut output, t, identity.artificial_pressure_enabled);
    let t = push_hex_field(&mut output, t, identity.artificial_pressure_strength_scale_bits);
    let t = push_hex_field(&mut output, t, identity.artificial_pressure_reference_separation_ratio_bits);
    let t = push_hex_field(&mut output, t, identity.artificial_pressure_exponent_bits);
    let t = push_text_field(&mut output, t, identity.support_policy);
    let t = push_text_field(&mut output, t, identity.boundary_model);
    let t = push_text_field(&mut output, t, identity.neighbour_rebuild_policy);
    let t = push_text_field(&mut output, t, identity.particle_order_policy);
    let t = push_bool_field(&mut output, t, identity.xsph_viscosity_enabled);
    let t = push_bool_field(&mut output, t, identity.vorticity_confinement_enabled);
    let t = push_hex_field(&mut output, t, identity.derived_bits[0]);
    let t = push_hex_field(&mut output, t, identity.derived_bits[1]);
    let t = push_hex_field(&mut output, t, identity.derived_bits[2]);
    let t = push_hex_field(&mut output, t, identity.derived_bits[3]);
    let t = push_hex_field(&mut output, t, identity.derived_bits[4]);
    let t = push_hex_field(&mut output, t, identity.derived_bits[5]);
    let t = push_hex_field(&mut output, t, identity.derived_bits[6]);
    let t = push_decimal_field(&mut output, t, identity.lattice_offset_count as u64);
    assert(t@ =~= configuration_key_tokens(*identity));
    output
}

/// The identifying texts contain no field separator.
pub open spec fn identity_texts_separator_free(v: ConfigurationIdentity) -> bool {
    &&& !v.scalar_precision@.contains('|')
    &&& !v.coordinate_system@.contains('|')
    &&& !v.timestep_policy@.contains('|')
    &&& !v.density_kernel@.contains('|')
    &&& !v.correction_kernel@.contains('|')
    &&& !v.solver_update_policy@.contains('|')
    &&& !v.support_policy@.contains('|')
    &&& !v.boundary_model@.contains('|')
    &&& !v.neighbour_rebuild_policy@.contains('|')
    &&& !v.particle_order_policy@.contains('|')
}

/// Two identities hold the same values.
pub open spec fn same_identity(a: ConfigurationIdentity, b: ConfigurationIdentity) -> bool {
    &&& a.scalar_precision@ == b.scalar_precision@
    &&& a.coordinate_system@ == b.coordinate_system@
    &&& a.timestep_policy@ == b.timestep_policy@
    &&& a.density_kernel@ == b.density_kernel@
    &&& a.correction_kernel@ == b.correction_kernel@
    &&& a.solver_update_policy@ == b.solver_update_policy@
    &&& a.external_acceleration_m_s2_bits[0] == b.external_acceleration_m_s2_bits[0]
    &&& a.external_acceleration_m_s2_bits[1] == b.external_acceleration_m_s2_bits[1]
    &&& a.external_acceleration_m_s2_bits[2] == b.external_acceleration_m_s2_bits[2]
    &&& a.fixed_timestep_s_bits == b.fixed_timestep_s_bits
    &&& a.cfl_factor_bits == b.cfl_factor_bits
    &&& a.particle_spacing_m_bits == b.particle_spacing_m_bits
    &&& a.support_radius_ratio_bits == b.support_radius_ratio_bits
    &&& a.physical_rest_density_kg_m3_bits == b.physical_rest_density_kg_m3_bits
    &&& a.solver_iterations == b.solver_iterations
    &&& a.relaxation_scale_bits == b.relaxation_scale_bits
    &&& a.artificial_pressure_enabled == b.artificial_pressure_enabled
    &&& a.artificial_pressure_strength_scale_bits == b.artificial_pressure_strength_scale_bits
    &&& a.artificial_pressure_reference_separation_ratio_bits == b.artificial_pressure_reference_separation_ratio_bits
    &&& a.artificial_pressure_exponent_bits == b.artificial_pressure_exponent_bits
    &&& a.support_policy@ == b.support_policy@
    &&& a.boundary_model@ == b.boundary_model@
    &&& a.neighbour_rebuild_policy@ == b.neighbour_rebuild_policy@
    &&& a.particle_order_policy@ == b.particle_order_policy@
    &&& a.xsph_viscosity_enabled == b.xsph_viscosity_enabled
    &&& a.vorticity_confinement_enabled == b.vorticity_confinement_enabled
    &&& a.derived_bits[0] == b.derived_bits[0]
    &&& a.derived_bits[1] == b.derived_bits[1]
    &&& a.derived_bits[2] == b.derived_bits[2]
    &&& a.derived_bits[3] == b.derived_bits[3]
    &&& a.derived_bits[4] == b.derived_bits[4]
    &&& a.derived_bits[5] == b.derived_bits[5]
    &&& a.derived_bits[6] == b.derived_bits[6]
    &&& a.lattice_offset_count == b.lattice_offset_count
}

proof fn lemma_configuration_tokens_free(v: ConfigurationIdentity)
    requires
        identity_texts_separator_free(v),
    ensures
        separator_free(configuration_key_tokens(v), '|'),
{
    reveal_strlit("configuration-comparison-v1");
    lemma_vec3_text_free(v.external_acceleration_m_s2_bits);
    lemma_hex8_free(v.fixed_timestep_s_bits);
    lemma_hex8_free(v.cfl_factor_bits);
    lemma_hex8_free(v.particle_spacing_m_bits);
    lemma_hex8_free(v.support_radius_ratio_bits);
    lemma_hex8_free(v.physical_rest_density_kg_m3_bits);
    lemma_decimal_free(v.solver_iterations as nat);
    lemma_hex8_free(v.relaxation_scale_bits);
    lemma_bool_text_free(v.artificial_pressure_enabled);
    lemma_hex8_free(v.artificial_pressure_strength_scale_bits);
    lemma_hex8_free(v.artificial_pressure_reference_separation_ratio_bits);
    lemma_hex8_free(v.artificial_pressure_exponent_bits);
    lemma_bool_text_free(v.xsph_viscosity_enabled);
    lemma_bool_text_free(v.vorticity_confinement_enabled);
    lemma_hex8_free(v.derived_bits[0]);
    lemma_hex8_free(v.derived_bits[1]);
    lemma_hex8_free(v.derived_bits[2]);
    lemma_hex8_free(v.derived_bits[3]);
    lemma_hex8_free(v.derived_bits[4]);
    lemma_hex8_free(v.derived_bits[5]);
    lemma_hex8_free(v.derived_bits[6]);
    lemma_decimal_free(v.lattice_offset_count as nat);
    let t = configuration_key_tokens(v);
    assert forall|i: int| 0 <= i < t.len() implies !(#[trigger] t[i]).contains('|') by {
        if i == 0 {
            assert forall|j: int| 0 <= j < t[0].len() implies t[0][j] != '|' by {}
        }
    }
}

/// The identity holds the single supported value of every fixed policy.
pub open spec fn identity_policies_supported(v: ConfigurationIdentity) -> bool {
    &&& v.scalar_precision@ == SCALAR_PRECISION@
    &&& v.coordinate_system@ == COORDINATE_SYSTEM@
    &&& v.timestep_policy@ == TIMESTEP_POLICY@
    &&& v.density_kernel@ == DENSITY_KERNEL@
    &&& v.correction_kernel@ == CORRECTION_KERNEL@
    &&& v.solver_update_policy@ == SOLVER_UPDATE_POLICY@
    &&& v.support_policy@ == SUPPORT_POLICY@
    &&& v.boundary_model@ == BOUNDARY_MODEL@
    &&& v.neighbour_rebuild_policy@ == NEIGHBOUR_REBUILD_POLICY@
    &&& v.particle_order_policy@ == PARTICLE_ORDER_POLICY@
}

/// ### The supported policies contain no field separator
///
/// A validated configuration holds the supported policies, so its identity
/// meets the condition of the key laws below.
pub proof fn lemma_supported_policies_have_no_separator(v: ConfigurationIdentity)
    requires
        identity_policies_supported(v),
    ensures
        identity_texts_separator_free(v),
{
    reveal_strlit("binary32");
    reveal_strlit("right_handed_y_up_metres_seconds_kilograms");
    reveal_strlit("fixed");
    reveal_strlit("poly6");
    reveal_strlit("spiky");
    reveal_strlit("jacobi_immutable_snapshot");
    reveal_strlit("strict_less_than");
    reveal_strlit("static_plane_projection");
    reveal_strlit("once_after_prediction");
    reveal_strlit("ascending_particle_identity");
    let texts = seq![
        v.scalar_precision@,
        v.coordinate_system@,
        v.timestep_policy@,
        v.density_kernel@,
        v.correction_kernel@,
        v.solver_update_policy@,
        v.support_policy@,
        v.boundary_model@,
        v.neighbour_rebuild_policy@,
        v.particle_order_policy@,
    ];
    assert forall|i: int, k: int| 0 <= i < 10 && 0 <= k < texts[i].len() implies #[trigger] texts[i][k]
        != '|' by {}
    assert(forall|i: int| 0 <= i < 10 ==> !(#[trigger] texts[i]).contains('|'));
    assert(texts[0] == v.scalar_precision@);
    assert(texts[9] == v.particle_order_policy@);
}

/// The identity's policy texts, in the order in which policies are validated.
pub open spec fn identity_policy_texts<'a>(v: ConfigurationIdentity<'a>) -> Seq<&'a str> {
    seq![
        v.scalar_precision,
        v.coordinate_system,
        v.timestep_policy,
        v.density_kernel,
        v.correction_kernel,
        v.solver_update_policy,
        v.support_policy,
        v.boundary_model,
        v.neighbour_rebuild_policy,
        v.particle_order_policy,
    ]
}

/// ### Policies accepted by validation meet the key laws' condition
///
/// When [`validate_policies`](crate::config::validate_policies) accepts the
/// identity's policy texts, none of them contains the field separator.
pub proof fn lemma_validated_policies_have_no_separator(v: ConfigurationIdentity)
    requires
        forall|i: int| 0 <= i < POLICY_FIELD_COUNT ==> !#[trigger] policy_differs(identity_policy_texts(v), i),
    ensures
        identity_texts_separator_free(v),
{
    let t = identity_policy_texts(v);
    assert(!policy_differs(t, 0));
    assert(!policy_differs(t, 1));
    assert(!policy_differs(t, 2));
    assert(!policy_differs(t, 3));
    assert(!policy_differs(t, 4));
    assert(!policy_differs(t, 5));
    assert(!policy_differs(t, 6));
    assert(!policy_differs(t, 7));
    assert(!policy_differs(t, 8));
    assert(!policy_differs(t, 9));
    lemma_supported_policies_have_no_separator(v);
}

/// Equal identities give equal keys.
proof fn lemma_same_identity_same_key(a: ConfigurationIdentity, b: ConfigurationIdentity)
    requires
        same_identity(a, b),
    ensures
        configuration_key(a) == configuration_key(b),
{
    assert(configuration_key_tokens(a) =~= configuration_key_tokens(b));
}

/// ### The configuration key identifies the configuration's values
///
/// When the policy texts contain no `|`, two configurations have the same
/// comparison key exactly when they hold the same policies, the same bits for
/// every numerical and derived value, and the same counts and switches.
pub proof fn lemma_configuration_key_identifies_values(a: ConfigurationIdentity, b: ConfigurationIdentity)
    requires
        identity_texts_separator_free(a),
        identity_texts_separator_free(b),
    ensures
        configuration_key(a) == configuration_key(b) <==> same_identity(a, b),
{
    if same_identity(a, b) {
        lemma_same_identity_same_key(a, b);
    }
    if configuration_key(a) == configuration_key(b) {
        lemma_configuration_key_values(a, b);
    }
}

proof fn lemma_configuration_key_values(a: ConfigurationIdentity, b: ConfigurationIdentity)
    requires
        identity_texts_separator_free(a),
        identity_texts_separator_free(b),
        configuration_key(a) == configuration_key(b),
    ensures
        same_identity(a, b),
{
    lemma_configuration_tokens_free(a);
    lemma_configuration_tokens_free(b);
    lemma_joined_injective(configuration_key_tokens(a), configuration_key_tokens(b), '|');
    let ta = configuration_key_tokens(a);
    let tb = configuration_key_tokens(b);
    assert forall|i: int| 0 <= i < ta.len() implies ta[i] == tb[i] by {}
    lemma_vec3_text_injective(a.external_acceleration_m_s2_bits, b.external_acceleration_m_s2_bits);
    lemma_hex8_injective(a.fixed_timestep_s_bits, b.fixed_timestep_s_bits);
    lemma_hex8_injective(a.cfl_factor_bits, b.cfl_factor_bits);
    lemma_hex8_injective(a.particle_spacing_m_bits, b.particle_spacing_m_bits);
    lemma_hex8_injective(a.support_radius_ratio_bits, b.support_radius_ratio_bits);
    lemma_hex8_injective(a.physical_rest_density_kg_m3_bits, b.physical_rest_density_kg_m3_bits);
    lemma_decimal_injective(a.solver_iterations as nat, b.solver_iterations as nat);
    lemma_hex8_injective(a.relaxation_scale_bits, b.relaxation_scale_bits);
    lemma_bool_text_injective(a.artificial_pressure_enabled, b.artificial_pressure_enabled);
    lemma_hex8_injective(a.artificial_pressure_strength_scale_bits, b.artificial_pressure_strength_scale_bits);
    lemma_hex8_injective(a.artificial_pressure_reference_separation_ratio_bits, b.artificial_pressure_reference_separation_ratio_bits);
    lemma_hex8_injective(a.artificial_pressure_exponent_bits, b.artificial_pressure_exponent_bits);
    lemma_bool_text_injective(a.xsph_viscosity_enabled, b.xsph_viscosity_enabled);
    lemma_bool_text_injective(a.vorticity_confinement_enabled, b.vorticity_confinement_enabled);
    lemma_hex8_injective(a.derived_bits[0], b.derived_bits[0]);
    lemma_hex8_injective(a.derived_bits[1], b.derived_bits[1]);
    lemma_hex8_injective(a.derived_bits[2], b.derived_bits[2]);
    lemma_hex8_injective(a.derived_bits[3], b.derived_bits[3]);
    lemma_hex8_injective(a.derived_bits[4], b.derived_bits[4]);
    lemma_hex8_injective(a.derived_bits[5], b.derived_bits[5]);
    lemma_hex8_injective(a.derived_bits[6], b.derived_bits[6]);
    lemma_decimal_injective(a.lattice_offset_count as nat, b.lattice_offset_count as nat);
}

/// Each bit pattern written as hexadecimal.
pub open spec fn hex_tokens(bits: Seq<u32>) -> Seq<Seq<char>> {
    bits.map_values(|b: u32| hex8(b))
}

/// Bit patterns written as hexadecimal and separated by commas.
pub open spec fn hex_list(bits: Seq<u32>) -> Seq<char> {
    joined(hex_tokens(bits), ',')
}

/// Appends bit patterns as comma-separated hexadecimal.
pub fn push_hex_list(output: &mut String, bits: &[u32])
    ensures
        final(output)@ == old(output)@ + hex_list(bits@),
{
    let comma = ",";
    proof {
        reveal_strlit(",");
    }
    let mut k: usize = 0;
    while k < bits.len()
        invariant
            k <= bits@.len(),
            comma@ == seq![','],
            output@ == old(output)@ + hex_list(bits@.take(k as int)),
        decreases bits@.len() - k,
    {
        let ghost before = hex_tokens(bits@.take(k as int));
        if k > 0 {
            output.append(comma);
        }
        push_hex8(output, bits[k]);
        proof {
            let after = hex_tokens(bits@.take(k + 1));
            assert(after =~= before.push(hex8(bits@[k as int])));
            if k > 0 {
                lemma_joined_push(before, hex8(bits@[k as int]), ',');
            } else {
                assert(before.len() == 0);
            }
        }
        assert(output@ =~= old(output)@ + hex_list(bits@.take(k + 1)));
        k = k + 1;
    }
    assert(bits@.take(bits@.len() as int) =~= bits@);
}

/// One plane of a scene key: `:` and its normal and offset bits.
pub open spec fn plane_key_text(plane: [u32; 4]) -> Seq<char> {
    seq![':'] + hex_list(plane@)
}

/// One particle of a scene key: `:`, its identity, `:` and its position and velocity bits.
pub open spec fn particle_key_text(particle: (u64, [u32; 6])) -> Seq<char> {
    seq![':'] + decimal(particle.0 as nat) + seq![':'] + hex_list(particle.1@)
}

/// The plane entries of a scene key, in order.
pub open spec fn planes_key_text(planes: Seq<[u32; 4]>) -> Seq<char>
    decreases planes.len(),
{
    if planes.len() == 0 {
        seq![]
    } else {
        planes_key_text(planes.drop_last()) + plane_key_text(planes.last())
    }
}

/// The particle entries of a scene key, in order.
pub open spec fn particles_key_text(particles: Seq<(u64, [u32; 6])>) -> Seq<char>
    decreases particles.len(),
{
    if particles.len() == 0 {
        seq![]
    } else {
        particles_key_text(particles.drop_last()) + particle_key_text(particles.last())
    }
}

/// The scene comparison key.
pub open spec fn scene_key(
    configuration: ConfigurationIdentity,
    planes: Seq<[u32; 4]>,
    particles: Seq<(u64, [u32; 6])>,
) -> Seq<char> {
    "scene-comparison-v1|randomness=none|"@ + configuration_key(configuration) + "|planes"@
        + planes_key_text(planes) + "|particles"@ + particles_key_text(particles)
}

/// ### Builds the key used to compare two resolved scene inputs
///
/// `planes` holds each plane's normal and offset bits in document order;
/// `particles` holds each particle's identity and its position and velocity
/// bits in identity order. Names and descriptions are not part of the key.
pub fn scene_comparison_key(
    configuration: &ConfigurationIdentity,
    planes: &[[u32; 4]],
    particles: &[(u64, [u32; 6])],
) -> (r: String)
    ensures
        r@ == scene_key(*configuration, planes@, particles@),
{
    let colon = ":";
    proof {
        reveal_strlit(":");
    }
    let mut output = String::from_str("scene-comparison-v1|randomness=none|");
    let configuration_text = configuration_comparison_key(configuration);
    output.append(configuration_text.as_str());
    output.append("|planes");
    let ghost head = output@;
    let mut k: usize = 0;
    while k < planes.len()
        invariant
            k <= planes@.len(),
            colon@ == seq![':'],
            output@ == head + planes_key_text(planes@.take(k as int)),
        decreases planes@.len() - k,
    {
        output.append(colon);
        push_hex_list(&mut output, &planes[k]);
        assert(planes@.take(k + 1).drop_last() =~= planes@.take(k as int));
        assert(output@ =~= head + planes_key_text(planes@.take(k + 1)));
        k = k + 1;
    }
    assert(planes@.take(planes@.len() as int) =~= planes@);
    output.append("|particles");
    let ghost middle = output@;
    let mut k: usize = 0;
    while k < particles.len()
        invariant
            k <= particles@.len(),
            colon@ == seq![':'],
            output@ == middle + particles_key_text(particles@.take(k as int)),
        decreases particles@.len() - k,
    {
        let (identity, bits) = particles[k];
        output.append(colon);
        push_decimal(&mut output, identity);
        output.append(colon);
        push_hex_list(&mut output, &bits);
        assert(particles@.take(k + 1).drop_last() =~= particles@.take(k as int));
        assert(output@ =~= middle + particles_key_text(particles@.take(k + 1)));
        k = k + 1;
    }
    assert(particles@.take(particles@.len() as int) =~= particles@);
    output
}

/// Joining two non-empty lists joins their two joined texts.
proof fn lemma_joined_append(a: Seq<Seq<char>>, b: Seq<Seq<char>>, separator: char)
    requires
        a.len() >= 1,
        b.len() >= 1,
    ensures
        joined(a + b, separator) == joined(a, separator) + seq![separator] + joined(b, separator),
    decreases b.len(),
{
    if b.len() == 1 {
        assert((a + b).drop_last() =~= a);
        assert((a + b).last() == b[0]);
    } else {
        lemma_joined_append(a, b.drop_last(), separator);
        assert((a + b).drop_last() =~= a + b.drop_last());
        assert((a + b).last() == b.last());
        assert(joined(a + b, separator) =~= joined(a, separator) + seq![separator] + joined(
            b,
            separator,
        ));
    }
}

/// A character that is neither the separator nor in any token is not in the joined text.
proof fn lemma_joined_free(tokens: Seq<Seq<char>>, separator: char, c: char)
    requires
        c != separator,
        forall|i: int| 0 <= i < tokens.len() ==> !(#[trigger] tokens[i]).contains(c),
    ensures
        !joined(tokens, separator).contains(c),
    decreases tokens.len(),
{
    if tokens.len() == 1 {
        assert(!tokens[0].contains(c));
    } else if tokens.len() > 1 {
        let d = tokens.drop_last();
        assert forall|i: int| 0 <= i < d.len() implies !(#[trigger] d[i]).contains(c) by {
            assert(d[i] == tokens[i]);
        }
        lemma_joined_free(d, separator, c);
        let p = joined(d, separator);
        let l = tokens.last();
        assert(!l.contains(c)) by {
            assert(l == tokens[tokens.len() - 1]);
        }
        let j = joined(tokens, separator);
        assert forall|k: int| 0 <= k < j.len() implies j[k] != c by {
            if k < p.len() {
                assert(j[k] == p[k]);
            } else if k > p.len() {
                assert(j[k] == l[k - p.len() - 1]);
            }
        }
    }
}

proof fn lemma_hex_list_free(bits: Seq<u32>)
    ensures
        !hex_list(bits).contains('|'),
        !hex_list(bits).contains(':'),
{
    let t = hex_tokens(bits);
    assert forall|i: int| 0 <= i < t.len() implies !(#[trigger] t[i]).contains('|') && !t[i].contains(
        ':',
    ) by {
        lemma_hex8_free(bits[i]);
    }
    lemma_joined_free(t, ',', '|');
    lemma_joined_free(t, ',', ':');
}

/// ### Equally long lists of bit patterns are told apart by their text
pub proof fn lemma_hex_list_injective(a: Seq<u32>, b: Seq<u32>)
    requires
        a.len() == b.len(),
        hex_list(a) == hex_list(b),
    ensures
        a == b,
{
    let ta = hex_tokens(a);
    let tb = hex_tokens(b);
    assert forall|i: int| 0 <= i < ta.len() implies !(#[trigger] ta[i]).contains(',') by {
        lemma_hex8_free(a[i]);
    }
    assert forall|i: int| 0 <= i < tb.len() implies !(#[trigger] tb[i]).contains(',') by {
        lemma_hex8_free(b[i]);
    }
    lemma_joined_injective(ta, tb, ',');
    assert forall|i: int| 0 <= i < a.len() implies a[i] == b[i] by {
        assert(ta[i] == tb[i]);
        lemma_hex8_injective(a[i], b[i]);
    }
    assert(a =~= b);
}

/// The `:`-separated fields of the plane part of a scene key.
spec fn plane_tokens(planes: Seq<[u32; 4]>) -> Seq<Seq<char>> {
    seq!["planes"@] + planes.map_values(|p: [u32; 4]| hex_list(p@))
}

/// The `:`-separated fields of the particle part of a scene key, after its label.
spec fn particle_fields(particles: Seq<(u64, [u32; 6])>) -> Seq<Seq<char>>
    decreases particles.len(),
{
    if particles.len() == 0 {
        seq![]
    } else {
        particle_fields(particles.drop_last()) + seq![
            decimal(particles.last().0 as nat),
            hex_list(particles.last().1@),
        ]
    }
}

/// The `:`-separated fields of the particle part of a scene key.
spec fn particle_tokens(particles: Seq<(u64, [u32; 6])>) -> Seq<Seq<char>> {
    seq!["particles"@] + particle_fields(particles)
}

proof fn lemma_planes_joined(planes: Seq<[u32; 4]>)
    ensures
        joined(plane_tokens(planes), ':') == "planes"@ + planes_key_text(planes),
    decreases planes.len(),
{
    if planes.len() == 0 {
        assert(plane_tokens(planes) =~= seq!["planes"@]);
        assert("planes"@ + planes_key_text(planes) =~= "planes"@);
    } else {
        let d = planes.drop_last();
        lemma_planes_joined(d);
        let x = hex_list(planes.last()@);
        assert(plane_tokens(planes) =~= plane_tokens(d).push(x));
        lemma_joined_push(plane_tokens(d), x, ':');
        assert("planes"@ + planes_key_text(planes) =~= "planes"@ + planes_key_text(d) + seq![':']
            + x);
    }
}

proof fn lemma_particle_fields_shape(particles: Seq<(u64, [u32; 6])>)
    ensures
        particle_fields(particles).len() == 2 * particles.len(),
        forall|i: int|
            #![trigger particles[i]]
            0 <= i < particles.len() ==> particle_fields(particles)[2 * i] == decimal(
                particles[i].0 as nat,
            ) && particle_fields(particles)[2 * i + 1] == hex_list(particles[i].1@),
    decreases particles.len(),
{
    if particles.len() > 0 {
        let d = particles.drop_last();
        lemma_particle_fields_shape(d);
        let f = particle_fields(particles);
        assert forall|i: int|
            #![trigger particles[i]]
            0 <= i < particles.len() implies f[2 * i] == decimal(particles[i].0 as nat) && f[2 * i
                + 1] == hex_list(particles[i].1@) by {
            if i < d.len() {
                assert(d[i] == particles[i]);
            }
        }
    }
}

proof fn lemma_particles_joined(particles: Seq<(u64, [u32; 6])>)
    ensures
        joined(particle_tokens(particles), ':') == "particles"@ + particles_key_text(particles),
    decreases particles.len(),
{
    if particles.len() == 0 {
        assert(particle_tokens(particles) =~= seq!["particles"@]);
        assert("particles"@ + particles_key_text(particles) =~= "particles"@);
    } else {
        let d = particles.drop_last();
        lemma_particles_joined(d);
        let x = decimal(particles.last().0 as nat);
        let h = hex_list(particles.last().1@);
        let head = particle_tokens(d);
        assert(particle_tokens(particles) =~= head.push(x).push(h));
        lemma_joined_push(head, x, ':');
        lemma_joined_push(head.push(x), h, ':');
        assert("particles"@ + particles_key_text(particles) =~= "particles"@ + particles_key_text(d)
            + seq![':'] + x + seq![':'] + h);
    }
}

proof fn lemma_plane_tokens_free(planes: Seq<[u32; 4]>)
    ensures
        separator_free(plane_tokens(planes), ':'),
        forall|i: int|
            0 <= i < plane_tokens(planes).len() ==> !(#[trigger] plane_tokens(planes)[i]).contains(
                '|',
            ),
{
    reveal_strlit("planes");
    let t = plane_tokens(planes);
    assert forall|i: int| 0 <= i < t.len() implies !(#[trigger] t[i]).contains(':') && !t[i].contains(
        '|',
    ) by {
        if i == 0 {
            assert forall|k: int| 0 <= k < t[0].len() implies t[0][k] != ':' && t[0][k] != '|' by {}
        } else {
            lemma_hex_list_free(planes[i - 1]@);
        }
    }
}

proof fn lemma_particle_tokens_free(particles: Seq<(u64, [u32; 6])>)
    ensures
        separator_free(particle_tokens(particles), ':'),
        forall|i: int|
            0 <= i < particle_tokens(particles).len() ==> !(#[trigger] particle_tokens(
                particles,
            )[i]).contains('|'),
{
    reveal_strlit("particles");
    lemma_particle_fields_shape(particles);
    let t = particle_tokens(particles);
    let f = particle_fields(particles);
    assert forall|i: int| 0 <= i < t.len() implies !(#[trigger] t[i]).contains(':') && !t[i].contains(
        '|',
    ) by {
        if i == 0 {
            assert forall|k: int| 0 <= k < t[0].len() implies t[0][k] != ':' && t[0][k] != '|' by {}
        } else {
            let m = (i - 1) / 2;
            assert(0 <= m < particles.len());
            let _ = particles[m];
            if (i - 1) % 2 == 0 {
                assert(t[i] == f[2 * m]);
                lemma_decimal_free(particles[m].0 as nat);
            } else {
                assert(t[i] == f[2 * m + 1]);
                lemma_hex_list_free(particles[m].1@);
            }
        }
    }
}

proof fn lemma_planes_identified(a: Seq<[u32; 4]>, b: Seq<[u32; 4]>)
    requires
        joined(plane_tokens(a), ':') == joined(plane_tokens(b), ':'),
    ensures
        a == b,
{
    lemma_plane_tokens_free(a);
    lemma_plane_tokens_free(b);
    lemma_joined_injective(plane_tokens(a), plane_tokens(b), ':');
    assert(plane_tokens(a).len() == plane_tokens(b).len());
    assert forall|i: int| 0 <= i < a.len() implies a[i] == b[i] by {
        assert(plane_tokens(a)[i + 1] == plane_tokens(b)[i + 1]);
        lemma_hex_list_injective(a[i]@, b[i]@);
        assert(a[i] =~= b[i]);
    }
    assert(a =~= b);
}

proof fn lemma_particles_identified(a: Seq<(u64, [u32; 6])>, b: Seq<(u64, [u32; 6])>)
    requires
        joined(particle_tokens(a), ':') == joined(particle_tokens(b), ':'),
    ensures
        a == b,
{
    lemma_particle_tokens_free(a);
    lemma_particle_tokens_free(b);
    lemma_particle_fields_shape(a);
    lemma_particle_fields_shape(b);
    lemma_joined_injective(particle_tokens(a), particle_tokens(b), ':');
    assert(particle_tokens(a).len() == particle_tokens(b).len());
    assert forall|i: int| 0 <= i < a.len() implies a[i] == b[i] by {
        let _ = b[i];
        assert(particle_tokens(a)[2 * i + 1] == particle_tokens(b)[2 * i + 1]);
        assert(particle_tokens(a)[2 * i + 2] == particle_tokens(b)[2 * i + 2]);
        lemma_decimal_injective(a[i].0 as nat, b[i].0 as nat);
        lemma_hex_list_injective(a[i].1@, b[i].1@);
        assert(a[i].1 =~= b[i].1);
    }
    assert(a =~= b);
}

/// The `|`-separated fields of a scene key.
spec fn scene_key_tokens(
    configuration: ConfigurationIdentity,
    planes: Seq<[u32; 4]>,
    particles: Seq<(u64, [u32; 6])>,
) -> Seq<Seq<char>> {
    seq!["scene-comparison-v1"@, "randomness=none"@] + configuration_key_tokens(configuration)
        + seq![joined(plane_tokens(planes), ':'), joined(particle_tokens(particles), ':')]
}

proof fn lemma_scene_key_joined(
    configuration: ConfigurationIdentity,
    planes: Seq<[u32; 4]>,
    particles: Seq<(u64, [u32; 6])>,
)
    ensures
        joined(scene_key_tokens(configuration, planes, particles), '|') == scene_key(
            configuration,
            planes,
            particles,
        ),
{
    reveal_strlit("scene-comparison-v1|randomness=none|");
    reveal_strlit("scene-comparison-v1");
    reveal_strlit("randomness=none");
    reveal_strlit("|planes");
    reveal_strlit("planes");
    reveal_strlit("|particles");
    reveal_strlit("particles");
    lemma_planes_joined(planes);
    lemma_particles_joined(particles);
    let a = seq!["scene-comparison-v1"@, "randomness=none"@];
    let c = configuration_key_tokens(configuration);
    let p = joined(plane_tokens(planes), ':');
    let q = joined(particle_tokens(particles), ':');
    let b = seq![p, q];
    lemma_joined_append(a, c, '|');
    lemma_joined_append(a + c, b, '|');
    assert(a.drop_last() =~= seq!["scene-comparison-v1"@]);
    assert(joined(a.drop_last(), '|') == "scene-comparison-v1"@);
    assert(b.drop_last() =~= seq![p]);
    assert(joined(b.drop_last(), '|') == p);
    assert(joined(a, '|') == "scene-comparison-v1"@ + seq!['|'] + "randomness=none"@);
    assert(joined(b, '|') == p + seq!['|'] + q);
    assert("scene-comparison-v1|randomness=none|"@ =~= "scene-comparison-v1"@ + seq!['|']
        + "randomness=none"@ + seq!['|']);
    assert("|planes"@ =~= seq!['|'] + "planes"@);
    assert("|particles"@ =~= seq!['|'] + "particles"@);
    assert(joined(scene_key_tokens(configuration, planes, particles), '|') =~= scene_key(
        configuration,
        planes,
        particles,
    ));
}

proof fn lemma_scene_key_tokens_free(
    configuration: ConfigurationIdentity,
    planes: Seq<[u32; 4]>,
    particles: Seq<(u64, [u32; 6])>,
)
    requires
        identity_texts_separator_free(configuration),
    ensures
        separator_free(scene_key_tokens(configuration, planes, particles), '|'),
{
    reveal_strlit("scene-comparison-v1");
    reveal_strlit("randomness=none");
    lemma_configuration_tokens_free(configuration);
    lemma_plane_tokens_free(planes);
    lemma_particle_tokens_free(particles);
    lemma_joined_free(plane_tokens(planes), ':', '|');
    lemma_joined_free(particle_tokens(particles), ':', '|');
    let t = scene_key_tokens(configuration, planes, particles);
    let c = configuration_key_tokens(configuration);
    assert forall|i: int| 0 <= i < t.len() implies !(#[trigger] t[i]).contains('|') by {
        if i == 0 || i == 1 {
            assert forall|k: int| 0 <= k < t[i].len() implies t[i][k] != '|' by {}
        } else if i < 2 + c.len() {
            assert(t[i] == c[i - 2]);
        }
    }
}

/// ### The scene key identifies the scene's physical input
///
/// When the policy texts contain no `|`, two scenes have the same comparison
/// key exactly when their configurations hold the same values, their planes
/// are the same in the same order, and their particles are the same, with the
/// same identities, in the same order.
pub proof fn lemma_scene_key_identifies_inputs(
    configuration_a: ConfigurationIdentity,
    planes_a: Seq<[u32; 4]>,
    particles_a: Seq<(u64, [u32; 6])>,
    configuration_b: ConfigurationIdentity,
    planes_b: Seq<[u32; 4]>,
    particles_b: Seq<(u64, [u32; 6])>,
)
    requires
        identity_texts_separator_free(configuration_a),
        identity_texts_separator_free(configuration_b),
    ensures
        scene_key(configuration_a, planes_a, particles_a) == scene_key(
            configuration_b,
            planes_b,
            particles_b,
        ) <==> same_identity(configuration_a, configuration_b) && planes_a == planes_b
            && particles_a == particles_b,
{
    if same_identity(configuration_a, configuration_b) {
        lemma_same_identity_same_key(configuration_a, configuration_b);
    }
    if scene_key(configuration_a, planes_a, particles_a) == scene_key(
        configuration_b,
        planes_b,
        particles_b,
    ) {
        lemma_scene_key_values(
            configuration_a,
            planes_a,
            particles_a,
            configuration_b,
            planes_b,
            particles_b,
        );
    }
}

proof fn lemma_scene_key_values(
    configuration_a: ConfigurationIdentity,
    planes_a: Seq<[u32; 4]>,
    particles_a: Seq<(u64, [u32; 6])>,
    configuration_b: ConfigurationIdentity,
    planes_b: Seq<[u32; 4]>,
    particles_b: Seq<(u64, [u32; 6])>,
)
    requires
        identity_texts_separator_free(configuration_a),
        identity_texts_separator_free(configuration_b),
        scene_key(configuration_a, planes_a, particles_a) == scene_key(
            configuration_b,
            planes_b,
            particles_b,
        ),
    ensures
        same_identity(configuration_a, configuration_b),
        planes_a == planes_b,
        particles_a == particles_b,
{
    let ta = scene_key_tokens(configuration_a, planes_a, particles_a);
    let tb = scene_key_tokens(configuration_b, planes_b, particles_b);
    lemma_scene_key_joined(configuration_a, planes_a, particles_a);
    lemma_scene_key_joined(configuration_b, planes_b, particles_b);
    lemma_scene_key_tokens_free(configuration_a, planes_a, particles_a);
    lemma_scene_key_tokens_free(configuration_b, planes_b, particles_b);
    lemma_joined_injective(ta, tb, '|');
    let ca = configuration_key_tokens(configuration_a);
    let cb = configuration_key_tokens(configuration_b);
    assert(ca =~= ta.subrange(2, 2 + ca.len() as int));
    assert(cb =~= tb.subrange(2, 2 + cb.len() as int));
    lemma_configuration_key_values(configuration_a, configuration_b);
    assert(ta[ta.len() - 2] == tb[tb.len() - 2]);
    assert(ta[ta.len() - 1] == tb[tb.len() - 1]);
    lemma_planes_identified(planes_a, planes_b);
    lemma_particles_identified(particles_a, particles_b);
}

} // verus!

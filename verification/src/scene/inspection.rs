//! # Scene inspection text
//!
//! The canonical inspection of a resolved scene: its display metadata, the
//! configuration comparison key, and the ordered planes and particles.
//! Binary32 values enter as the texts that Rust's `{:?}` formatting gives
//! them.

use vstd::prelude::*;

use crate::config::{
    bracketed, header_text, lemma_header_identifies_labels, line_text, push_bracketed_line,
    push_decimal_line, push_header, push_string, text_views,
};
use crate::keys::{ConfigurationIdentity, configuration_comparison_key, configuration_key, decimal, push_decimal};
use crate::text::quoted_text;

verus! {

/// The `plane.<index> = [...]` lines of the planes, numbered from zero.
pub open spec fn plane_lines(planes: Seq<[&str; 4]>) -> Seq<char>
    decreases planes.len(),
{
    if planes.len() == 0 {
        seq![]
    } else {
        plane_lines(planes.drop_last()) + line_text(
            "plane."@ + decimal((planes.len() - 1) as nat),
            bracketed(text_views(planes.last()@)),
        )
    }
}

/// The `particle.<identity> = [...]` lines of the particles, in order.
pub open spec fn particle_lines(particles: Seq<(u64, [&str; 6])>) -> Seq<char>
    decreases particles.len(),
{
    if particles.len() == 0 {
        seq![]
    } else {
        particle_lines(particles.drop_last()) + line_text(
            "particle."@ + decimal(particles.last().0 as nat),
            bracketed(text_views(particles.last().1@)),
        )
    }
}

/// The line of one plane, numbered `index`.
pub open spec fn plane_line(index: nat, plane: [&str; 4]) -> Seq<char> {
    line_text("plane."@ + decimal(index), bracketed(text_views(plane@)))
}

/// The line of one particle, named by its identity.
pub open spec fn particle_line(particle: (u64, [&str; 6])) -> Seq<char> {
    line_text("particle."@ + decimal(particle.0 as nat), bracketed(text_views(particle.1@)))
}

/// ### Plane `k` is written as the `k`-th plane line
///
/// The plane lines of the first `k + 1` planes are those of the first `k`
/// followed by the line of plane `k`, numbered `k`; no plane line is written
/// for an empty list, and the lines of all planes are those of the whole list.
pub proof fn lemma_plane_lines_in_order(planes: Seq<[&str; 4]>, k: int)
    requires
        0 <= k < planes.len(),
    ensures
        plane_lines(planes.take(k + 1)) == plane_lines(planes.take(k)) + plane_line(
            k as nat,
            planes[k],
        ),
        plane_lines(Seq::<[&str; 4]>::empty()) == Seq::<char>::empty(),
        plane_lines(planes.take(planes.len() as int)) == plane_lines(planes),
{
    assert(planes.take(k + 1).drop_last() =~= planes.take(k));
    assert(planes.take(planes.len() as int) =~= planes);
}

/// ### A single particle gets exactly its own line
pub proof fn lemma_particle_lines_single(particle: (u64, [&str; 6]))
    ensures
        particle_lines(seq![particle]) == particle_line(particle),
        particle_lines(Seq::<(u64, [&str; 6])>::empty()) == Seq::<char>::empty(),
{
    let one = seq![particle];
    assert(one.drop_last() =~= Seq::<(u64, [&str; 6])>::empty());
    assert(one.last() == particle);
    assert(particle_lines(one.drop_last()) == Seq::<char>::empty());
    assert(particle_lines(one) =~= particle_line(particle));
}

/// ### One line per particle, in order
///
/// The particle lines of two lists one after the other are the lines of the
/// first followed by those of the second.
pub proof fn lemma_particle_lines_append(a: Seq<(u64, [&str; 6])>, b: Seq<(u64, [&str; 6])>)
    ensures
        particle_lines(a + b) == particle_lines(a) + particle_lines(b),
    decreases b.len(),
{
    if b.len() == 0 {
        assert(a + b =~= a);
        assert(particle_lines(a) + particle_lines(b) =~= particle_lines(a));
    } else {
        lemma_particle_lines_append(a, b.drop_last());
        assert((a + b).drop_last() =~= a + b.drop_last());
        assert((a + b).last() == b.last());
        assert(particle_lines(a + b) =~= particle_lines(a) + particle_lines(b));
    }
}

/// The canonical inspection text of a resolved scene.
pub open spec fn scene_inspection_text(
    schema_version: u32,
    name: Seq<char>,
    description: Seq<char>,
    configuration: ConfigurationIdentity,
    planes: Seq<[&str; 4]>,
    particles: Seq<(u64, [&str; 6])>,
) -> Seq<char> {
    header_text("scene_schema_version"@, schema_version as nat, name, description) + scene_body_text(
        configuration,
        planes,
        particles,
    )
}

/// The lines of a scene inspection after its header.
pub open spec fn scene_body_text(
    configuration: ConfigurationIdentity,
    planes: Seq<[&str; 4]>,
    particles: Seq<(u64, [&str; 6])>,
) -> Seq<char> {
    line_text("randomness"@, quoted_text("none"@))
        + line_text("configuration_key"@, quoted_text(configuration_key(configuration)))
        + line_text("plane_count"@, decimal(planes.len()))
        + plane_lines(planes)
        + line_text("particle_count"@, decimal(particles.len()))
        + particle_lines(particles)
}

/// ### The inspection text keeps the name and description apart
///
/// Two scenes whose inspection texts are equal have the same name and the
/// same description: the display labels are written in quotes that can be
/// read back.
pub proof fn lemma_scene_inspection_identifies_labels(
    schema_version_a: u32,
    name_a: Seq<char>,
    description_a: Seq<char>,
    configuration_a: ConfigurationIdentity,
    planes_a: Seq<[&str; 4]>,
    particles_a: Seq<(u64, [&str; 6])>,
    schema_version_b: u32,
    name_b: Seq<char>,
    description_b: Seq<char>,
    configuration_b: ConfigurationIdentity,
    planes_b: Seq<[&str; 4]>,
    particles_b: Seq<(u64, [&str; 6])>,
)
    requires
        scene_inspection_text(
            schema_version_a,
            name_a,
            description_a,
            configuration_a,
            planes_a,
            particles_a,
        ) == scene_inspection_text(
            schema_version_b,
            name_b,
            description_b,
            configuration_b,
            planes_b,
            particles_b,
        ),
    ensures
        name_a == name_b,
        description_a == description_b,
{
    lemma_header_identifies_labels(
        "scene_schema_version"@,
        schema_version_a as nat,
        name_a,
        description_a,
        scene_body_text(configuration_a, planes_a, particles_a),
        schema_version_b as nat,
        name_b,
        description_b,
        scene_body_text(configuration_b, planes_b, particles_b),
    );
}

proof fn lemma_regroup(
    h: Seq<char>,
    l1: Seq<char>,
    l2: Seq<char>,
    l3: Seq<char>,
    l4: Seq<char>,
    l5: Seq<char>,
    l6: Seq<char>,
)
    ensures
        Seq::<char>::empty() + h + l1 + l2 + l3 + l4 + l5 + l6 == h + (l1 + l2 + l3 + l4 + l5 + l6),
{
    assert(Seq::<char>::empty() + h + l1 + l2 + l3 + l4 + l5 + l6 =~= h + (l1 + l2 + l3 + l4 + l5
        + l6));
}

/// ### Writes the text representation of a resolved scene
///
/// `planes` holds each plane's normal components and offset as written by
/// `{:?}`, in document order; `particles` holds each particle's identity and
/// its position and velocity components, in identity order. The text keeps
/// the display metadata alongside the configuration comparison key, the
/// planes and the particles.
pub fn canonical_inspection(
    schema_version: u32,
    name: &str,
    description: &str,
    configuration: &ConfigurationIdentity,
    planes: &[[&str; 4]],
    particles: &[(u64, [&str; 6])],
) -> (r: String)
    ensures
        r@ == scene_inspection_text(
            schema_version,
            name@,
            description@,
            *configuration,
            planes@,
            particles@,
        ),
{
    let mut output = String::new();
    push_header(&mut output, "scene_schema_version", schema_version, name, description);
    push_string(&mut output, "randomness", "none");
    let key = configuration_comparison_key(configuration);
    push_string(&mut output, "configuration_key", key.as_str());
    push_decimal_line(&mut output, "plane_count", planes.len() as u64);
    let ghost head = output@;
    let mut k: usize = 0;
    while k < planes.len()
        invariant
            k <= planes@.len(),
            output@ == head + plane_lines(planes@.take(k as int)),
        decreases planes@.len() - k,
    {
        let mut line_key = String::from_str("plane.");
        push_decimal(&mut line_key, k as u64);
        push_bracketed_line(&mut output, line_key.as_str(), &planes[k]);
        assert(planes@.take(k + 1).drop_last() =~= planes@.take(k as int));
        assert(output@ =~= head + plane_lines(planes@.take(k + 1)));
        k = k + 1;
    }
    assert(planes@.take(planes@.len() as int) =~= planes@);
    push_decimal_line(&mut output, "particle_count", particles.len() as u64);
    let ghost middle = output@;
    let mut k: usize = 0;
    while k < particles.len()
        invariant
            k <= particles@.len(),
            output@ == middle + particle_lines(particles@.take(k as int)),
        decreases particles@.len() - k,
    {
        let (identity, values) = particles[k];
        let mut line_key = String::from_str("particle.");
        push_decimal(&mut line_key, identity);
        push_bracketed_line(&mut output, line_key.as_str(), &values);
        assert(particles@.take(k + 1).drop_last() =~= particles@.take(k as int));
        assert(output@ =~= middle + particle_lines(particles@.take(k + 1)));
        k = k + 1;
    }
    assert(particles@.take(particles@.len() as int) =~= particles@);
    proof {
        lemma_regroup(
            header_text("scene_schema_version"@, schema_version as nat, name@, description@),
            line_text("randomness"@, quoted_text("none"@)),
            line_text("configuration_key"@, quoted_text(configuration_key(*configuration))),
            line_text("plane_count"@, decimal(planes@.len())),
            plane_lines(planes@),
            line_text("particle_count"@, decimal(particles@.len())),
            particle_lines(particles@),
        );
    }
    output
}

} // verus!

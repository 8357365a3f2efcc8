//! # Reading a scene inspection back
//!
//! The canonical scene inspection determines what it was written from: the
//! display labels, the configuration key, and every plane and particle with
//! its texts, in order.

use vstd::prelude::*;

use super::inspection::{
    particle_line, particle_lines, plane_line, plane_lines, scene_body_text, scene_inspection_text,
};
use crate::config::{
    bracketed, fold_lines, joined_lines, keyed_lines, lemma_bracketed_items_read_back,
    lemma_fold_is_joined, lemma_fold_push, lemma_header_identifies_labels,
    lemma_items_without_line_breaks, lemma_joined_push, lemma_keyed_lines_read_back, line_text,
    plain_value, shown, text_views,
};
use crate::keys::{
    ConfigurationIdentity, configuration_key, decimal, lemma_decimal_free, lemma_decimal_injective,
};
use crate::text::{lemma_split_at_first, quoted_text};

verus! {

/// Every binary32 text of the planes and particles is written as `{:?}`
/// writes it: without line breaks or commas.
pub open spec fn scene_texts_plain(planes: Seq<[&str; 4]>, particles: Seq<(u64, [&str; 6])>) -> bool {
    &&& forall|i: int, k: int|
        0 <= i < planes.len() && 0 <= k < 4 ==> plain_value(#[trigger] planes[i][k]@)
    &&& forall|i: int, k: int|
        0 <= i < particles.len() && 0 <= k < 6 ==> plain_value(#[trigger] particles[i].1[k]@)
}

/// The keys of the plane lines.
pub open spec fn plane_keys(count: nat) -> Seq<Seq<char>> {
    Seq::new(count, |i: int| "plane."@ + decimal(i as nat))
}

/// No value is quoted.
pub open spec fn none_quoted(count: nat) -> Seq<bool> {
    Seq::new(count, |i: int| false)
}

/// The values of the plane lines.
pub open spec fn plane_values(planes: Seq<[&str; 4]>) -> Seq<Seq<char>> {
    Seq::new(planes.len(), |i: int| bracketed(text_views(planes[i]@)))
}

/// The particle lines, one per particle.
pub open spec fn particle_rows(particles: Seq<(u64, [&str; 6])>) -> Seq<Seq<char>> {
    Seq::new(particles.len(), |i: int| particle_line(particles[i]))
}

proof fn lemma_plane_lines_joined(planes: Seq<[&str; 4]>)
    ensures
        plane_lines(planes) == joined_lines(
            keyed_lines(plane_keys(planes.len()), none_quoted(planes.len()), plane_values(planes)),
        ),
    decreases planes.len(),
{
    let n = planes.len();
    let kl = keyed_lines(plane_keys(n), none_quoted(n), plane_values(planes));
    if n == 0 {
        assert(kl =~= Seq::<Seq<char>>::empty());
    } else {
        let d = planes.drop_last();
        lemma_plane_lines_joined(d);
        let kd = keyed_lines(plane_keys(d.len()), none_quoted(d.len()), plane_values(d));
        assert forall|i: int| 0 <= i < kd.len() implies kd[i] == kl.drop_last()[i] by {
            assert(d[i] == planes[i]);
        }
        assert(kd =~= kl.drop_last());
        lemma_joined_push(kl);
        assert(kl.last() == plane_line((n - 1) as nat, planes.last()));
    }
}

proof fn lemma_particle_lines_joined(particles: Seq<(u64, [&str; 6])>)
    ensures
        particle_lines(particles) == joined_lines(particle_rows(particles)),
    decreases particles.len(),
{
    let rows = particle_rows(particles);
    if particles.len() == 0 {
        assert(rows =~= Seq::<Seq<char>>::empty());
    } else {
        let d = particles.drop_last();
        lemma_particle_lines_joined(d);
        assert forall|i: int| 0 <= i < d.len() implies particle_rows(d)[i] == rows.drop_last()[i] by {
            assert(d[i] == particles[i]);
        }
        assert(particle_rows(d) =~= rows.drop_last());
        lemma_joined_push(rows);
    }
}

proof fn lemma_views_plain<const N: usize>(row: [&str; N])
    requires
        forall|k: int| 0 <= k < N ==> plain_value(#[trigger] row[k]@),
    ensures
        forall|k: int| 0 <= k < text_views(row@).len() ==> !(#[trigger] text_views(row@)[k]).contains(
            '\n',
        ) && !text_views(row@)[k].contains(','),
        !bracketed(text_views(row@)).contains('\n'),
{
    assert forall|k: int| 0 <= k < text_views(row@).len() implies !(#[trigger] text_views(
        row@,
    )[k]).contains('\n') && !text_views(row@)[k].contains(',') by {
        assert(text_views(row@)[k] == row[k]@);
    }
    lemma_items_without_line_breaks(text_views(row@));
}

proof fn lemma_row_read_back<const N: usize>(a: [&str; N], b: [&str; N])
    requires
        forall|k: int| 0 <= k < N ==> plain_value(#[trigger] a[k]@),
        forall|k: int| 0 <= k < N ==> plain_value(#[trigger] b[k]@),
        bracketed(text_views(a@)) == bracketed(text_views(b@)),
    ensures
        forall|k: int| 0 <= k < N ==> (#[trigger] a[k])@ == b[k]@,
{
    lemma_views_plain(a);
    lemma_views_plain(b);
    lemma_bracketed_items_read_back(text_views(a@), text_views(b@));
    assert forall|k: int| 0 <= k < N implies (#[trigger] a[k])@ == b[k]@ by {
        assert(text_views(a@)[k] == text_views(b@)[k]);
    }
}

proof fn lemma_particle_rows_read_back(
    a: Seq<(u64, [&str; 6])>,
    tail_a: Seq<char>,
    b: Seq<(u64, [&str; 6])>,
    tail_b: Seq<char>,
)
    requires
        a.len() == b.len(),
        forall|i: int, k: int| 0 <= i < a.len() && 0 <= k < 6 ==> plain_value(#[trigger] a[i].1[k]@),
        forall|i: int, k: int| 0 <= i < b.len() && 0 <= k < 6 ==> plain_value(#[trigger] b[i].1[k]@),
        joined_lines(particle_rows(a)) + tail_a == joined_lines(particle_rows(b)) + tail_b,
    ensures
        forall|i: int| 0 <= i < a.len() ==> (#[trigger] a[i]).0 == b[i].0,
        forall|i: int, k: int| 0 <= i < a.len() && 0 <= k < 6 ==> (#[trigger] a[i].1[k])@ == b[i].1[k]@,
        tail_a == tail_b,
    decreases a.len(),
{
    reveal_strlit("particle.");
    reveal_strlit(" = ");
    reveal_strlit("= ");
    reveal_strlit("\n");
    let ra = particle_rows(a);
    let rb = particle_rows(b);
    if a.len() == 0 {
        assert(joined_lines(ra) + tail_a =~= tail_a);
        assert(joined_lines(rb) + tail_b =~= tail_b);
    } else {
        let pa = a[0];
        let pb = b[0];
        assert(ra.skip(1) =~= particle_rows(a.skip(1)));
        assert(rb.skip(1) =~= particle_rows(b.skip(1)));
        let rest_a = joined_lines(ra.skip(1)) + tail_a;
        let rest_b = joined_lines(rb.skip(1)) + tail_b;
        let va = bracketed(text_views(pa.1@));
        let vb = bracketed(text_views(pb.1@));
        let xa = "= "@ + (va + seq!['\n'] + rest_a);
        let xb = "= "@ + (vb + seq!['\n'] + rest_b);
        let w = joined_lines(ra) + tail_a;
        assert(ra[0] == particle_line(pa));
        assert(rb[0] == particle_line(pb));
        assert(w =~= "particle."@ + (decimal(pa.0 as nat) + seq![' '] + xa));
        assert(w =~= "particle."@ + (decimal(pb.0 as nat) + seq![' '] + xb));
        assert(w.skip(9) =~= decimal(pa.0 as nat) + seq![' '] + xa);
        assert(w.skip(9) =~= decimal(pb.0 as nat) + seq![' '] + xb);
        lemma_decimal_free(pa.0 as nat);
        lemma_decimal_free(pb.0 as nat);
        lemma_split_at_first(decimal(pa.0 as nat), xa, decimal(pb.0 as nat), xb, ' ');
        lemma_decimal_injective(pa.0 as nat, pb.0 as nat);
        assert(xa.skip(2) =~= va + seq!['\n'] + rest_a);
        assert(xb.skip(2) =~= vb + seq!['\n'] + rest_b);
        assert forall|k: int| 0 <= k < 6 implies plain_value(#[trigger] pa.1[k]@) by {
            assert(plain_value(a[0].1[k]@));
        }
        assert forall|k: int| 0 <= k < 6 implies plain_value(#[trigger] pb.1[k]@) by {
            assert(plain_value(b[0].1[k]@));
        }
        lemma_views_plain(pa.1);
        lemma_views_plain(pb.1);
        lemma_split_at_first(va, rest_a, vb, rest_b, '\n');
        lemma_row_read_back(pa.1, pb.1);
        assert forall|i: int, k: int|
            0 <= i < a.skip(1).len() && 0 <= k < 6 implies plain_value(#[trigger] a.skip(1)[i].1[k]@) by {
            assert(a.skip(1)[i] == a[i + 1]);
        }
        assert forall|i: int, k: int|
            0 <= i < b.skip(1).len() && 0 <= k < 6 implies plain_value(#[trigger] b.skip(1)[i].1[k]@) by {
            assert(b.skip(1)[i] == b[i + 1]);
        }
        lemma_particle_rows_read_back(a.skip(1), tail_a, b.skip(1), tail_b);
        assert forall|i: int| 0 <= i < a.len() implies (#[trigger] a[i]).0 == b[i].0 by {
            if i > 0 {
                assert(a.skip(1)[i - 1] == a[i]);
                assert(b.skip(1)[i - 1] == b[i]);
            }
        }
        assert forall|i: int, k: int| 0 <= i < a.len() && 0 <= k < 6 implies (
        #[trigger] a[i].1[k])@ == b[i].1[k]@ by {
            if i > 0 {
                assert(a.skip(1)[i - 1] == a[i]);
                assert(b.skip(1)[i - 1] == b[i]);
            }
        }
    }
}

/// The keys of the first lines after the header.
spec fn opening_keys() -> Seq<Seq<char>> {
    seq!["randomness"@, "configuration_key"@, "plane_count"@]
}

spec fn opening_quoted() -> Seq<bool> {
    seq![true, true, false]
}

spec fn opening_values(configuration: ConfigurationIdentity, planes: Seq<[&str; 4]>) -> Seq<Seq<char>> {
    seq!["none"@, configuration_key(configuration), decimal(planes.len())]
}

proof fn lemma_opening_lines(configuration: ConfigurationIdentity, planes: Seq<[&str; 4]>)
    ensures
        joined_lines(keyed_lines(opening_keys(), opening_quoted(), opening_values(configuration, planes)))
            == line_text("randomness"@, quoted_text("none"@)) + line_text(
            "configuration_key"@,
            quoted_text(configuration_key(configuration)),
        ) + line_text("plane_count"@, decimal(planes.len())),
{
    let e = Seq::<char>::empty();
    let l1 = line_text("randomness"@, quoted_text("none"@));
    let l2 = line_text("configuration_key"@, quoted_text(configuration_key(configuration)));
    let l3 = line_text("plane_count"@, decimal(planes.len()));
    let s0 = Seq::<Seq<char>>::empty();
    let s1 = s0.push(l1);
    lemma_fold_push(e, s0, l1);
    let s2 = s1.push(l2);
    lemma_fold_push(e, s1, l2);
    let s3 = s2.push(l3);
    lemma_fold_push(e, s2, l3);
    let kl = keyed_lines(opening_keys(), opening_quoted(), opening_values(configuration, planes));
    assert(kl[0] == l1);
    assert(kl[1] == l2);
    assert(kl[2] == l3);
    assert(kl =~= s3);
    lemma_fold_is_joined(e, kl);
    assert(e + joined_lines(kl) =~= joined_lines(kl));
    assert(e + l1 =~= l1);
}

proof fn lemma_regroup_body(
    opening: Seq<char>,
    planes: Seq<char>,
    count: Seq<char>,
    particles: Seq<char>,
)
    ensures
        opening + planes + count + particles == opening + (planes + (count + particles)),
{
    assert(opening + planes + count + particles =~= opening + (planes + (count + particles)));
}

/// ### The inspection text determines the scene
///
/// Two scenes whose binary32 texts are written as `{:?}` writes them
/// (without line breaks or commas) and whose inspection texts are equal have
/// the same schema version, name, description and configuration key, the
/// same number of planes with the same texts in the same order, and the same
/// number of particles with the same identities and texts in the same order.
#[verifier::rlimit(50)]
pub proof fn lemma_scene_inspection_identifies_scene(
    schema_version_a: u32,
    name_a: Seq<char>,
    description_a: Seq<char>,
    configuration_a: ConfigurationIdentity,
    planes_a: Seq<[&str; 4]>,
    particles_a: Seq<(u64, [&str; 6])>,
    schema_version_b: u32,
    name_b: Seq<char>,
    description_b: Seq<char>,
    configuration_b: ConfigurationIdentity,
    planes_b: Seq<[&str; 4]>,
    particles_b: Seq<(u64, [&str; 6])>,
)
    requires
        scene_texts_plain(planes_a, particles_a),
        scene_texts_plain(planes_b, particles_b),
        scene_inspection_text(
            schema_version_a,
            name_a,
            description_a,
            configuration_a,
            planes_a,
            particles_a,
        ) == scene_inspection_text(
            schema_version_b,
            name_b,
            description_b,
            configuration_b,
            planes_b,
            particles_b,
        ),
    ensures
        schema_version_a == schema_version_b,
        name_a == name_b,
        description_a == description_b,
        configuration_key(configuration_a) == configuration_key(configuration_b),
        planes_a.len() == planes_b.len(),
        forall|i: int, k: int|
            0 <= i < planes_a.len() && 0 <= k < 4 ==> (#[trigger] planes_a[i][k])@ == planes_b[i][k]@,
        particles_a.len() == particles_b.len(),
        forall|i: int| 0 <= i < particles_a.len() ==> (#[trigger] particles_a[i]).0 == particles_b[i].0,
        forall|i: int, k: int|
            0 <= i < particles_a.len() && 0 <= k < 6 ==> (#[trigger] particles_a[i].1[k])@
                == particles_b[i].1[k]@,
{
    lemma_header_identifies_labels(
        "scene_schema_version"@,
        schema_version_a as nat,
        name_a,
        description_a,
        scene_body_text(configuration_a, planes_a, particles_a),
        schema_version_b as nat,
        name_b,
        description_b,
        scene_body_text(configuration_b, planes_b, particles_b),
    );
    let oa = keyed_lines(opening_keys(), opening_quoted(), opening_values(configuration_a, planes_a));
    let ob = keyed_lines(opening_keys(), opening_quoted(), opening_values(configuration_b, planes_b));
    lemma_opening_lines(configuration_a, planes_a);
    lemma_opening_lines(configuration_b, planes_b);
    let qa = line_text("particle_count"@, decimal(particles_a.len())) + particle_lines(particles_a);
    let qb = line_text("particle_count"@, decimal(particles_b.len())) + particle_lines(particles_b);
    lemma_regroup_body(
        joined_lines(oa),
        plane_lines(planes_a),
        line_text("particle_count"@, decimal(particles_a.len())),
        particle_lines(particles_a),
    );
    lemma_regroup_body(
        joined_lines(ob),
        plane_lines(planes_b),
        line_text("particle_count"@, decimal(particles_b.len())),
        particle_lines(particles_b),
    );
    lemma_decimal_free(planes_a.len());
    lemma_decimal_free(planes_b.len());
    assert(opening_values(configuration_a, planes_a)[2] == decimal(planes_a.len()));
    assert(opening_values(configuration_b, planes_b)[2] == decimal(planes_b.len()));
    assert forall|i: int|
        0 <= i < opening_values(configuration_a, planes_a).len() && !opening_quoted()[i] implies !(
        #[trigger] opening_values(configuration_a, planes_a)[i]).contains('\n')
        && !opening_values(configuration_b, planes_b)[i].contains('\n') by {
        if i == 0 {
        } else if i == 1 {
        } else {
            assert(opening_values(configuration_a, planes_a)[i] == decimal(planes_a.len()));
            assert(opening_values(configuration_b, planes_b)[i] == decimal(planes_b.len()));
        }
    }
    lemma_keyed_lines_read_back(
        opening_keys(),
        opening_quoted(),
        opening_values(configuration_a, planes_a),
        plane_lines(planes_a) + qa,
        opening_values(configuration_b, planes_b),
        plane_lines(planes_b) + qb,
    );
    assert(opening_values(configuration_a, planes_a)[1] == opening_values(configuration_b, planes_b)[1]);
    assert(opening_values(configuration_a, planes_a)[2] == opening_values(configuration_b, planes_b)[2]);
    lemma_decimal_injective(planes_a.len(), planes_b.len());
    let n = planes_a.len();
    lemma_plane_lines_joined(planes_a);
    lemma_plane_lines_joined(planes_b);
    assert forall|i: int|
        0 <= i < plane_values(planes_a).len() && !none_quoted(n)[i] implies !(
        #[trigger] plane_values(planes_a)[i]).contains('\n') && !plane_values(planes_b)[i].contains(
        '\n',
    ) by {
        assert forall|k: int| 0 <= k < 4 implies plain_value(#[trigger] planes_a[i][k]@) by {
            assert(plain_value(planes_a[i][k]@));
        }
        assert forall|k: int| 0 <= k < 4 implies plain_value(#[trigger] planes_b[i][k]@) by {
            assert(plain_value(planes_b[i][k]@));
        }
        lemma_views_plain(planes_a[i]);
        lemma_views_plain(planes_b[i]);
    }
    lemma_keyed_lines_read_back(
        plane_keys(n),
        none_quoted(n),
        plane_values(planes_a),
        qa,
        plane_values(planes_b),
        qb,
    );
    assert forall|i: int, k: int| 0 <= i < planes_a.len() && 0 <= k < 4 implies (
    #[trigger] planes_a[i][k])@ == planes_b[i][k]@ by {
        assert(plane_values(planes_a)[i] == plane_values(planes_b)[i]);
        assert forall|j: int| 0 <= j < 4 implies plain_value(#[trigger] planes_a[i][j]@) by {
            assert(plain_value(planes_a[i][j]@));
        }
        assert forall|j: int| 0 <= j < 4 implies plain_value(#[trigger] planes_b[i][j]@) by {
            assert(plain_value(planes_b[i][j]@));
        }
        lemma_row_read_back(planes_a[i], planes_b[i]);
    }
    let ca = seq![line_text("particle_count"@, decimal(particles_a.len()))];
    let cb = seq![line_text("particle_count"@, decimal(particles_b.len()))];
    let count_keys = seq!["particle_count"@];
    let count_quoted = seq![false];
    let count_a = seq![decimal(particles_a.len())];
    let count_b = seq![decimal(particles_b.len())];
    assert(keyed_lines(count_keys, count_quoted, count_a) =~= ca);
    assert(keyed_lines(count_keys, count_quoted, count_b) =~= cb);
    assert(ca.skip(1) =~= Seq::<Seq<char>>::empty());
    assert(cb.skip(1) =~= Seq::<Seq<char>>::empty());
    assert(joined_lines(ca.skip(1)) == Seq::<char>::empty());
    assert(joined_lines(cb.skip(1)) == Seq::<char>::empty());
    assert(joined_lines(ca) =~= ca[0]);
    assert(joined_lines(cb) =~= cb[0]);
    lemma_decimal_free(particles_a.len());
    lemma_decimal_free(particles_b.len());
    assert forall|i: int| 0 <= i < count_a.len() && !count_quoted[i] implies !(
    #[trigger] count_a[i]).contains('\n') && !count_b[i].contains('\n') by {}
    lemma_keyed_lines_read_back(
        count_keys,
        count_quoted,
        count_a,
        particle_lines(particles_a),
        count_b,
        particle_lines(particles_b),
    );
    assert(count_a[0] == count_b[0]);
    lemma_decimal_injective(particles_a.len(), particles_b.len());
    lemma_particle_lines_joined(particles_a);
    lemma_particle_lines_joined(particles_b);
    assert(joined_lines(particle_rows(particles_a)) + Seq::<char>::empty() =~= particle_lines(
        particles_a,
    ));
    assert(joined_lines(particle_rows(particles_b)) + Seq::<char>::empty() =~= particle_lines(
        particles_b,
    ));
    lemma_particle_rows_read_back(
        particles_a,
        Seq::<char>::empty(),
        particles_b,
        Seq::<char>::empty(),
    );
}

} // verus!

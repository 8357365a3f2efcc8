//! # Particle construction rules
//!
//! Counts, identities and lattice ordering: the integer side of building a
//! scene's initial particles.

use vstd::prelude::*;

use super::resolved::{MAX_EXPLICIT_PARTICLES, MAX_LATTICE_PARTICLES, SceneError};

verus! {

/// ### Checks the number of explicitly listed particles
///
/// ### Errors
///
/// Returns [`SceneError::ParticleCountTooLarge`] when more than
/// [`MAX_EXPLICIT_PARTICLES`] particles are listed.
pub fn check_explicit_count(count: usize) -> (r: Result<(), SceneError>)
    ensures
        r is Ok <==> count <= MAX_EXPLICIT_PARTICLES,
        r matches Err(e) ==> e matches SceneError::ParticleCountTooLarge {
            construction,
            maximum,
            requested,
        } && construction@ == "explicit"@ && maximum == MAX_EXPLICIT_PARTICLES && requested
            == count,
{
    if count > MAX_EXPLICIT_PARTICLES {
        Err(
            SceneError::ParticleCountTooLarge {
                construction: "explicit",
                maximum: MAX_EXPLICIT_PARTICLES,
                requested: count as u64,
            },
        )
    } else {
        Ok(())
    }
}

/// ### Requires explicit particle identities to be strictly ascending
///
/// `previous` is the identity of the particle listed before this one, if any.
///
/// ### Errors
///
/// Returns [`SceneError::ParticleIdentityOrder`] when `next` does not exceed `previous`.
pub fn check_identity_order(previous: Option<u64>, next: u64) -> (r: Result<(), SceneError>)
    ensures
        r is Ok <==> !(previous matches Some(p) && p >= next),
        r matches Err(e) ==> e matches SceneError::ParticleIdentityOrder { previous: p, next: n }
            && previous == Some(p) && n == next,
{
    match previous {
        Some(p) => {
            if p >= next {
                return Err(SceneError::ParticleIdentityOrder { previous: p, next });
            }
            Ok(())
        },
        None => Ok(()),
    }
}

/// The name of lattice axis `i`.
pub open spec fn axis_name(i: int) -> Seq<char> {
    if i == 0 {
        "x"@
    } else if i == 1 {
        "y"@
    } else {
        "z"@
    }
}

/// ### Requires every lattice axis to generate at least one position
///
/// ### Errors
///
/// Returns [`SceneError::EmptyLatticeAxis`] for the first axis, in `x`, `y`,
/// `z` order, whose count is zero.
pub fn check_lattice_axes(counts: [u32; 3]) -> (r: Result<(), SceneError>)
    ensures
        r is Ok <==> counts[0] > 0 && counts[1] > 0 && counts[2] > 0,
        r matches Err(e) ==> e matches SceneError::EmptyLatticeAxis { axis } && axis@
            == axis_name(if counts[0] == 0 {
            0
        } else if counts[1] == 0 {
            1
        } else {
            2
        }),
{
    if counts[0] == 0 {
        return Err(SceneError::EmptyLatticeAxis { axis: "x" });
    }
    if counts[1] == 0 {
        return Err(SceneError::EmptyLatticeAxis { axis: "y" });
    }
    if counts[2] == 0 {
        return Err(SceneError::EmptyLatticeAxis { axis: "z" });
    }
    Ok(())
}

/// The number of lattice positions requested by `counts`.
pub open spec fn lattice_total(counts: [u32; 3]) -> int {
    counts[0] as int * counts[1] as int * counts[2] as int
}

/// ### Checks the size of a lattice and the range of its identities
///
/// On success returns the particle count; identities `first_identity` up to
/// `first_identity + count - 1` are then all representable.
///
/// ### Errors
///
/// - [`SceneError::ParticleCountTooLarge`] with `requested == u64::MAX` when
///   the count does not fit in `u64`;
/// - [`SceneError::ParticleCountTooLarge`] when the count exceeds
///   [`MAX_LATTICE_PARTICLES`];
/// - [`SceneError::ParticleIdentityOverflow`] when the last identity exceeds `u64::MAX`.
pub fn lattice_particle_count(first_identity: u64, counts: [u32; 3]) -> (r: Result<u64, SceneError>)
    ensures
        lattice_total(counts) > u64::MAX ==> (r matches Err(
            SceneError::ParticleCountTooLarge { construction, maximum, requested },
        ) && construction@ == "lattice"@ && maximum == MAX_LATTICE_PARTICLES && requested
            == u64::MAX),
        lattice_total(counts) <= u64::MAX && lattice_total(counts) > MAX_LATTICE_PARTICLES ==> (
        r matches Err(SceneError::ParticleCountTooLarge { construction, maximum, requested })
            && construction@ == "lattice"@ && maximum == MAX_LATTICE_PARTICLES && requested
            == lattice_total(counts)),
        lattice_total(counts) <= MAX_LATTICE_PARTICLES && lattice_total(counts) > 0
            && first_identity + lattice_total(counts) - 1 > u64::MAX ==> r matches Err(
            SceneError::ParticleIdentityOverflow,
        ),
        lattice_total(counts) <= MAX_LATTICE_PARTICLES && (lattice_total(counts) == 0
            || first_identity + lattice_total(counts) - 1 <= u64::MAX) ==> r == Ok::<
            u64,
            SceneError,
        >(lattice_total(counts) as u64),
{
    let a = counts[0] as u64;
    let b = counts[1] as u64;
    let c = counts[2] as u64;
    assert(a * b <= u64::MAX) by (nonlinear_arith)
        requires
            a <= u32::MAX,
            b <= u32::MAX,
    ;
    let ab = a * b;
    let requested = match ab.checked_mul(c) {
        Some(total) => total,
        None => {
            return Err(
                SceneError::ParticleCountTooLarge {
                    construction: "lattice",
                    maximum: MAX_LATTICE_PARTICLES,
                    requested: u64::MAX,
                },
            );
        },
    };
    if requested > MAX_LATTICE_PARTICLES as u64 {
        return Err(
            SceneError::ParticleCountTooLarge {
                construction: "lattice",
                maximum: MAX_LATTICE_PARTICLES,
                requested,
            },
        );
    }
    if requested > 0 {
        if first_identity.checked_add(requested - 1).is_none() {
            return Err(SceneError::ParticleIdentityOverflow);
        }
    }
    Ok(requested)
}

/// ### The identity of the lattice particle generated at `index`
///
/// Lattice identities are consecutive from `first_identity`.
///
/// ### Errors
///
/// Returns [`SceneError::ParticleIdentityOverflow`] when `first_identity +
/// index` exceeds `u64::MAX`.
pub fn lattice_identity(first_identity: u64, index: u64) -> (r: Result<u64, SceneError>)
    ensures
        first_identity + index <= u64::MAX ==> r == Ok::<u64, SceneError>(
            (first_identity + index) as u64,
        ),
        first_identity + index > u64::MAX ==> r matches Err(SceneError::ParticleIdentityOverflow),
{
    match first_identity.checked_add(index) {
        Some(identity) => Ok(identity),
        None => Err(SceneError::ParticleIdentityOverflow),
    }
}

/// ### Lattice cell of the `index`-th generated particle
///
/// Cells are generated with `x` outermost and `z` varying fastest, so the
/// `index`-th particle lies at the unique `(x, y, z)` with
/// `index == (x * counts[1] + y) * counts[2] + z`.
pub fn lattice_cell(counts: [u32; 3], index: u64) -> (cell: (u32, u32, u32))
    requires
        counts[1] > 0,
        counts[2] > 0,
        index < lattice_total(counts),
    ensures
        cell.0 < counts[0],
        cell.1 < counts[1],
        cell.2 < counts[2],
        index == (cell.0 as int * counts[1] as int + cell.1 as int) * counts[2] as int + cell.2 as int,
{
    let cy = counts[1] as u64;
    let cz = counts[2] as u64;
    let z = index % cz;
    let rest = index / cz;
    let y = rest % cy;
    let x = rest / cy;
    let ghost cx = counts[0] as int;
    assert(index == rest * cz + z) by (nonlinear_arith)
        requires
            cz > 0,
            z == index % cz,
            rest == index / cz,
    ;
    assert(rest == x * cy + y) by (nonlinear_arith)
        requires
            cy > 0,
            y == rest % cy,
            x == rest / cy,
    ;
    assert(rest < cx * cy) by (nonlinear_arith)
        requires
            index == rest * cz + z,
            0 <= z,
            index < cx * cy * cz,
            cz > 0,
    ;
    assert(x < cx) by (nonlinear_arith)
        requires
            rest == x * cy + y,
            0 <= y,
            rest < cx * cy,
            cy > 0,
    ;
    (x as u32, y as u32, z as u32)
}

/// ### Lattice order is x-outermost, z-fastest
///
/// Distinct generation indices give distinct cells, and the cell of index `k`
/// determines `k`: the enumeration is a bijection onto the lattice.
pub proof fn lemma_lattice_order_is_injective(
    cy: int,
    cz: int,
    x1: int,
    y1: int,
    z1: int,
    x2: int,
    y2: int,
    z2: int,
)
    requires
        cy > 0,
        cz > 0,
        0 <= y1 < cy,
        0 <= y2 < cy,
        0 <= z1 < cz,
        0 <= z2 < cz,
        0 <= x1,
        0 <= x2,
        (x1 * cy + y1) * cz + z1 == (x2 * cy + y2) * cz + z2,
    ensures
        x1 == x2 && y1 == y2 && z1 == z2,
{
    assert(z1 == z2 && x1 * cy + y1 == x2 * cy + y2) by (nonlinear_arith)
        requires
            cz > 0,
            0 <= z1 < cz,
            0 <= z2 < cz,
            x1 * cy + y1 >= 0,
            x2 * cy + y2 >= 0,
            (x1 * cy + y1) * cz + z1 == (x2 * cy + y2) * cz + z2,
    ;
    assert(x1 == x2 && y1 == y2) by (nonlinear_arith)
        requires
            cy > 0,
            0 <= y1 < cy,
            0 <= y2 < cy,
            0 <= x1,
            0 <= x2,
            x1 * cy + y1 == x2 * cy + y2,
    ;
}

} // verus!

//! # Fixed interaction lists and their ordering rules
//!
//! The position-based-fluids solver reads each particle's neighbours from a
//! fixed interaction list. This module holds the list type, the validation of
//! supplied lists, and the index bookkeeping that keeps every per-particle
//! reduction in ascending particle order.

use vstd::prelude::*;

use crate::NumericalError;

verus! {

/// The rows of a `Vec<Vec<usize>>` as mathematical sequences.
pub open spec fn rows_view(rows: Seq<Vec<usize>>) -> Seq<Seq<usize>> {
    rows.map_values(|row: Vec<usize>| row@)
}

/// Entry `k` of row `p` refers to a missing particle, to `p` itself, or does
/// not exceed the entry before it.
pub open spec fn entry_is_invalid(rows: Seq<Seq<usize>>, p: int, k: int) -> bool {
    let row = rows[p];
    ||| row[k] >= rows.len()
    ||| row[k] == p
    ||| (k > 0 && row[k - 1] >= row[k])
}

/// Every entry of row `p` is a valid neighbour index.
pub open spec fn row_is_valid(rows: Seq<Seq<usize>>, p: int) -> bool {
    forall|k: int| 0 <= k < rows[p].len() ==> !#[trigger] entry_is_invalid(rows, p, k)
}

/// Every row refers only to other, existing particles, in strictly ascending order.
pub open spec fn rows_are_valid(rows: Seq<Seq<usize>>) -> bool {
    forall|p: int| 0 <= p < rows.len() ==> #[trigger] row_is_valid(rows, p)
}

/// `(p, k)` is the first invalid entry when rows are read in order and each row
/// from its first entry.
pub open spec fn is_first_invalid_entry(rows: Seq<Seq<usize>>, p: int, k: int) -> bool {
    &&& 0 <= p < rows.len()
    &&& 0 <= k < rows[p].len()
    &&& entry_is_invalid(rows, p, k)
    &&& forall|q: int| 0 <= q < p ==> #[trigger] row_is_valid(rows, q)
    &&& forall|j: int| 0 <= j < k ==> !#[trigger] entry_is_invalid(rows, p, j)
}

/// The error that reports invalid entry `k` of row `p`.
pub open spec fn entry_error(rows: Seq<Seq<usize>>, p: int, k: int) -> NumericalError {
    let row = rows[p];
    if row[k] >= rows.len() {
        NumericalError::InteractionIndexOutOfBounds {
            particle: p as usize,
            neighbour: row[k],
            particle_count: rows.len() as usize,
        }
    } else if row[k] == p {
        NumericalError::SelfInteraction { particle: p as usize }
    } else {
        NumericalError::InteractionOrder { particle: p as usize, previous: row[k - 1], next: row[k] }
    }
}

/// Every earlier entry of `s` is smaller than every later one.
pub open spec fn strictly_ascending(s: Seq<usize>) -> bool {
    forall|i: int, j: int| 0 <= i < j < s.len() ==> s[i] < s[j]
}

/// A valid row is strictly ascending and never names its own particle.
pub proof fn lemma_valid_row_is_ascending(rows: Seq<Seq<usize>>, p: int)
    requires
        0 <= p < rows.len(),
        row_is_valid(rows, p),
    ensures
        strictly_ascending(rows[p]),
        forall|k: int| 0 <= k < rows[p].len() ==> rows[p][k] != p,
        forall|k: int| 0 <= k < rows[p].len() ==> rows[p][k] < rows.len(),
{
    let row = rows[p];
    assert forall|k: int| 0 <= k < row.len() implies row[k] < rows.len() && row[k] != p by {
        assert(!entry_is_invalid(rows, p, k));
    }
    assert forall|i: int, j: int| 0 <= i < j < row.len() implies row[i] < row[j] by {
        lemma_adjacent_order_is_total(rows, p, i, j);
    }
}

proof fn lemma_adjacent_order_is_total(rows: Seq<Seq<usize>>, p: int, i: int, j: int)
    requires
        0 <= p < rows.len(),
        row_is_valid(rows, p),
        0 <= i < j < rows[p].len(),
    ensures
        rows[p][i] < rows[p][j],
    decreases j - i,
{
    assert(!entry_is_invalid(rows, p, j));
    if i + 1 < j {
        lemma_adjacent_order_is_total(rows, p, i, j - 1);
    }
}

/// ### Fixed interaction lists for a particle snapshot
///
/// Row `i` contains the particles that may interact with particle `i`.
/// Indices in each row are unique, exclude `i`, and appear in ascending order.
/// The type validates supplied lists but does not search for neighbours.
#[derive(Debug, PartialEq)]
pub struct InteractionSets {
    rows: Vec<Vec<usize>>,
}

impl View for InteractionSets {
    type V = Seq<Seq<usize>>;

    closed spec fn view(&self) -> Seq<Seq<usize>> {
        rows_view(self.rows@)
    }
}

impl InteractionSets {
    #[verifier::type_invariant]
    spec fn well_formed(self) -> bool {
        rows_are_valid(rows_view(self.rows@))
    }

    /// ### Validates and stores interaction rows
    ///
    /// ### Errors
    ///
    /// Returns [`NumericalError`] for the first row entry, in row order, that:
    ///
    /// - refers to a particle outside `rows`;
    /// - names its own particle;
    /// - does not exceed the entry before it (a duplicate or descending index).
    pub fn new(rows: Vec<Vec<usize>>) -> (r: Result<Self, NumericalError>)
        ensures
            r is Ok <==> rows_are_valid(rows_view(rows@)),
            r matches Ok(sets) ==> sets@ == rows_view(rows@),
            r matches Err(e) ==> exists|p: int, k: int|
                #[trigger] is_first_invalid_entry(rows_view(rows@), p, k) && e == entry_error(
                    rows_view(rows@),
                    p,
                    k,
                ),
    {
        let particle_count = rows.len();
        let ghost rv = rows_view(rows@);
        let mut particle: usize = 0;
        while particle < particle_count
            invariant
                particle <= particle_count,
                particle_count == rows@.len(),
                rv == rows_view(rows@),
                rv.len() == particle_count,
                forall|q: int| 0 <= q < particle ==> #[trigger] row_is_valid(rv, q),
            decreases particle_count - particle,
        {
            let neighbours = &rows[particle];
            assert(neighbours@ == rv[particle as int]);
            let mut k: usize = 0;
            while k < neighbours.len()
                invariant
                    particle < particle_count,
                    particle_count == rows@.len(),
                    rv == rows_view(rows@),
                    rv.len() == particle_count,
                    neighbours@ == rv[particle as int],
                    k <= neighbours@.len(),
                    forall|q: int| 0 <= q < particle ==> #[trigger] row_is_valid(rv, q),
                    forall|j: int| 0 <= j < k ==> !#[trigger] entry_is_invalid(rv, particle as int, j),
                decreases neighbours@.len() - k,
            {
                let neighbour = neighbours[k];
                if neighbour >= particle_count || neighbour == particle || (k > 0
                    && neighbours[k - 1] >= neighbour) {
                    assert(is_first_invalid_entry(rv, particle as int, k as int));
                    assert(!row_is_valid(rv, particle as int));
                    if neighbour >= particle_count {
                        return Err(
                            NumericalError::InteractionIndexOutOfBounds {
                                particle,
                                neighbour,
                                particle_count,
                            },
                        );
                    }
                    if neighbour == particle {
                        return Err(NumericalError::SelfInteraction { particle });
                    }
                    return Err(
                        NumericalError::InteractionOrder {
                            particle,
                            previous: neighbours[k - 1],
                            next: neighbour,
                        },
                    );
                }
                k = k + 1;
            }
            assert(row_is_valid(rv, particle as int));
            particle = particle + 1;
        }
        Ok(Self { rows })
    }

    /// Returns a copy of these interaction rows.
    fn duplicate(&self) -> (r: Self)
        ensures
            r@ == self@,
    {
        proof {
            use_type_invariant(self);
        }
        let mut rows: Vec<Vec<usize>> = Vec::new();
        let mut p: usize = 0;
        while p < self.rows.len()
            invariant
                p <= self.rows@.len(),
                rows@.len() == p,
                rows_are_valid(rows_view(self.rows@)),
                forall|q: int| 0 <= q < p ==> #[trigger] rows@[q]@ == self.rows@[q]@,
            decreases self.rows@.len() - p,
        {
            let source = &self.rows[p];
            let mut row: Vec<usize> = Vec::new();
            let mut k: usize = 0;
            while k < source.len()
                invariant
                    k <= source@.len(),
                    row@ == source@.take(k as int),
                decreases source@.len() - k,
            {
                row.push(source[k]);
                assert(row@ =~= source@.take(k + 1));
                k = k + 1;
            }
            assert(row@ =~= source@);
            rows.push(row);
            p = p + 1;
        }
        assert(rows_view(rows@) =~= rows_view(self.rows@));
        InteractionSets { rows }
    }

    /// Returns the number of particle rows.
    pub fn particle_count(&self) -> (r: usize)
        ensures
            r == self@.len(),
            rows_are_valid(self@),
    {
        proof {
            use_type_invariant(self);
        }
        self.rows.len()
    }

    /// Returns one particle's interaction row, or `None` if it does not exist.
    pub fn for_particle(&self, particle: usize) -> (r: Option<&[usize]>)
        ensures
            r is Some <==> particle < self@.len(),
            r matches Some(row) ==> row@ == self@[particle as int],
            rows_are_valid(self@),
    {
        proof {
            use_type_invariant(self);
        }
        if particle < self.rows.len() {
            Some(self.rows[particle].as_slice())
        } else {
            None
        }
    }
}

/// ### Looks up the interaction row of a snapshot particle
///
/// ### Errors
///
/// Returns [`NumericalError::ParticleIndexOutOfBounds`] when `particle` has no row.
pub fn interaction_row(particle: usize, fixed_interactions: &InteractionSets) -> (r: Result<
    &[usize],
    NumericalError,
>)
    ensures
        r is Ok <==> particle < fixed_interactions@.len(),
        r matches Ok(row) ==> row@ == fixed_interactions@[particle as int],
        r matches Err(e) ==> e == (NumericalError::ParticleIndexOutOfBounds {
            particle,
            particle_count: fixed_interactions@.len() as usize,
        }),
{
    match fixed_interactions.for_particle(particle) {
        Some(row) => Ok(row),
        None => Err(
            NumericalError::ParticleIndexOutOfBounds {
                particle,
                particle_count: fixed_interactions.particle_count(),
            },
        ),
    }
}

/// ### Checks that a snapshot has exactly one interaction row per particle
///
/// ### Errors
///
/// Returns [`NumericalError::InteractionSetCount`] when the counts differ.
pub fn validate_snapshot_count(position_count: usize, fixed_interactions: &InteractionSets) -> (r:
    Result<(), NumericalError>)
    ensures
        r is Ok <==> position_count == fixed_interactions@.len(),
        r matches Err(e) ==> e == (NumericalError::InteractionSetCount {
            expected: position_count,
            actual: fixed_interactions@.len() as usize,
        }),
{
    let actual = fixed_interactions.particle_count();
    if actual != position_count {
        Err(NumericalError::InteractionSetCount { expected: position_count, actual })
    } else {
        Ok(())
    }
}

/// The positions below `n` whose flag in `within` is set, in ascending order.
pub open spec fn kept_indices(within: Seq<bool>, n: int) -> Seq<int>
    decreases n,
{
    if n <= 0 {
        seq![]
    } else {
        let kept = kept_indices(within, n - 1);
        if within[n - 1] {
            kept.push(n - 1)
        } else {
            kept
        }
    }
}

/// The entries of `row` whose flag in `within` is set, in row order.
pub open spec fn retained(row: Seq<usize>, within: Seq<bool>) -> Seq<usize> {
    kept_indices(within, row.len() as int).map_values(|j: int| row[j])
}

/// ### Keeps the fixed interactions that lie inside current kernel support
///
/// `within[k]` states whether entry `k` of `fixed` is inside support at the
/// current positions. The kept entries keep their original order.
pub fn retain_within_support(fixed: &[usize], within: &[bool]) -> (active: Vec<usize>)
    requires
        fixed@.len() == within@.len(),
    ensures
        active@ == retained(fixed@, within@),
{
    let mut active: Vec<usize> = Vec::new();
    let mut k: usize = 0;
    while k < fixed.len()
        invariant
            fixed@.len() == within@.len(),
            k <= fixed@.len(),
            active@ == kept_indices(within@, k as int).map_values(|j: int| fixed@[j]),
        decreases fixed@.len() - k,
    {
        let ghost before = kept_indices(within@, k as int);
        if within[k] {
            active.push(fixed[k]);
            assert(kept_indices(within@, k + 1) == before.push(k as int));
            assert(active@ =~= before.push(k as int).map_values(|j: int| fixed@[j]));
        } else {
            assert(kept_indices(within@, k + 1) == before);
        }
        k = k + 1;
    }
    active
}

proof fn lemma_kept_indices(within: Seq<bool>, n: int)
    requires
        0 <= n <= within.len(),
    ensures
        forall|i: int|
            0 <= i < kept_indices(within, n).len() ==> 0 <= #[trigger] kept_indices(within, n)[i]
                < n && within[kept_indices(within, n)[i]],
        forall|a: int, b: int|
            0 <= a < b < kept_indices(within, n).len() ==> kept_indices(within, n)[a]
                < kept_indices(within, n)[b],
        forall|j: int| 0 <= j < n && #[trigger] within[j] ==> kept_indices(within, n).contains(j),
    decreases n,
{
    if n > 0 {
        lemma_kept_indices(within, n - 1);
        let kept = kept_indices(within, n - 1);
        if within[n - 1] {
            let now = kept.push(n - 1);
            assert(now[now.len() - 1] == n - 1);
            assert forall|j: int| 0 <= j < n && #[trigger] within[j] implies now.contains(j) by {
                if j < n - 1 {
                    let i = choose|i: int| 0 <= i < kept.len() && kept[i] == j;
                    assert(now[i] == j);
                }
            }
        }
    }
}

/// ### Filtering keeps order and membership
///
/// Filtering a row by support flags keeps exactly the flagged entries, each
/// taken from the row, and a strictly ascending row stays strictly ascending.
pub proof fn lemma_retained_keeps_order(row: Seq<usize>, within: Seq<bool>)
    requires
        row.len() == within.len(),
    ensures
        forall|x: usize|
            retained(row, within).contains(x) <==> exists|j: int|
                0 <= j < row.len() && within[j] && #[trigger] row[j] == x,
        strictly_ascending(row) ==> strictly_ascending(retained(row, within)),
{
    let n = row.len() as int;
    lemma_kept_indices(within, n);
    let idx = kept_indices(within, n);
    let kept = retained(row, within);
    assert forall|x: usize| kept.contains(x) <==> exists|j: int|
        0 <= j < row.len() && within[j] && #[trigger] row[j] == x by {
        if kept.contains(x) {
            let i = choose|i: int| 0 <= i < kept.len() && kept[i] == x;
            assert(0 <= idx[i] < n && within[idx[i]] && row[idx[i]] == x);
        }
        if exists|j: int| 0 <= j < row.len() && within[j] && #[trigger] row[j] == x {
            let j = choose|j: int| 0 <= j < row.len() && within[j] && #[trigger] row[j] == x;
            assert(idx.contains(j));
            let i = choose|i: int| 0 <= i < idx.len() && idx[i] == j;
            assert(kept[i] == x);
        }
    }
    if strictly_ascending(row) {
        assert forall|a: int, b: int| 0 <= a < b < kept.len() implies kept[a] < kept[b] by {
            assert(idx[a] < idx[b]);
            assert(0 <= idx[a] && idx[b] < n);
        }
    }
}

/// ### Position of a particle's own term among its ascending neighbours
///
/// Per-particle sums visit neighbours in ascending index order and add the
/// particle's own term just before the first neighbour with a larger index,
/// or after every neighbour when there is none.
pub fn ordered_owner_position(owner: usize, active: &[usize]) -> (position: usize)
    ensures
        position <= active@.len(),
        forall|j: int| 0 <= j < position ==> active@[j] <= owner,
        position < active@.len() ==> owner < active@[position as int],
{
    let mut position: usize = 0;
    while position < active.len()
        invariant
            position <= active@.len(),
            forall|j: int| 0 <= j < position ==> active@[j] <= owner,
        decreases active@.len() - position,
    {
        if owner < active[position] {
            return position;
        }
        position = position + 1;
    }
    position
}

/// ### The owner's term keeps the summation order ascending
///
/// Inserting a particle's own index at the position chosen by
/// [`ordered_owner_position`] into a strictly ascending neighbour list that
/// does not contain it gives a strictly ascending list.
pub proof fn lemma_owner_insertion_is_ascending(owner: usize, active: Seq<usize>, position: int)
    requires
        strictly_ascending(active),
        !active.contains(owner),
        0 <= position <= active.len(),
        forall|j: int| 0 <= j < position ==> active[j] <= owner,
        position < active.len() ==> owner < active[position],
    ensures
        strictly_ascending(active.insert(position, owner)),
{
    let merged = active.insert(position, owner);
    assert forall|i: int, j: int| 0 <= i < j < merged.len() implies merged[i] < merged[j] by {
        if i < position && j == position {
            assert(active[i] != owner);
        } else if i == position && j > position {
            assert(merged[j] == active[j - 1]);
            assert(active[position] <= active[j - 1] || position == j - 1);
        } else if i < position && j > position {
            assert(merged[j] == active[j - 1]);
        } else if i > position {
            assert(merged[i] == active[i - 1] && merged[j] == active[j - 1]);
        }
    }
}

impl Clone for InteractionSets {
    fn clone(&self) -> (r: Self)
        ensures
            r@ == self@,
    {
        self.duplicate()
    }
}

} // verus!

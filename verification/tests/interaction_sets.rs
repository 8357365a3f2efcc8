//! Interaction lists: validation, lookup, support filtering and summation order.

use maelstrom::NumericalError;
use maelstrom::fluid::{
    InteractionSets, interaction_row, ordered_owner_position, retain_within_support,
    validate_snapshot_count,
};

fn complete_four_particle_sets() -> InteractionSets {
    InteractionSets::new(vec![
        vec![1, 2, 3],
        vec![0, 2, 3],
        vec![0, 1, 3],
        vec![0, 1, 2],
    ])
    .unwrap()
}

#[test]
fn interaction_sets_reject_self_duplicates_order_and_invalid_indices() {
    // A particle cannot list itself.
    assert!(matches!(
        InteractionSets::new(vec![vec![0]]),
        Err(NumericalError::SelfInteraction { particle: 0 })
    ));
    assert!(matches!(
        InteractionSets::new(vec![vec![1, 1], vec![0]]),
        Err(NumericalError::InteractionOrder { .. })
    ));
    // Ascending order also prevents non-deterministic reductions.
    assert!(matches!(
        InteractionSets::new(vec![vec![2, 1], vec![0], vec![0]]),
        Err(NumericalError::InteractionOrder { .. })
    ));
    assert!(matches!(
        InteractionSets::new(vec![vec![1], vec![2]]),
        Err(NumericalError::InteractionIndexOutOfBounds { .. })
    ));
}

#[test]
fn first_invalid_entry_is_reported_with_its_exact_fields() {
    assert_eq!(
        InteractionSets::new(vec![vec![1], vec![2]]).unwrap_err(),
        NumericalError::InteractionIndexOutOfBounds {
            particle: 1,
            neighbour: 2,
            particle_count: 2,
        }
    );
    assert_eq!(
        InteractionSets::new(vec![vec![2, 1], vec![0], vec![0]]).unwrap_err(),
        NumericalError::InteractionOrder {
            particle: 0,
            previous: 2,
            next: 1,
        }
    );
    // Row order decides which error is reported.
    assert_eq!(
        InteractionSets::new(vec![vec![1], vec![1], vec![5]]).unwrap_err(),
        NumericalError::SelfInteraction { particle: 1 }
    );
    // Within a row, the bounds check comes before the self check.
    assert_eq!(
        InteractionSets::new(vec![vec![3, 0]]).unwrap_err(),
        NumericalError::InteractionIndexOutOfBounds {
            particle: 0,
            neighbour: 3,
            particle_count: 1,
        }
    );
}

#[test]
fn valid_sets_keep_their_rows() {
    let sets = complete_four_particle_sets();
    assert_eq!(sets.particle_count(), 4);
    assert_eq!(sets.for_particle(2), Some(&[0, 1, 3][..]));
    assert_eq!(sets.for_particle(4), None);
    let empty = InteractionSets::new(vec![vec![], vec![]]).unwrap();
    assert_eq!(empty.particle_count(), 2);
    assert_eq!(empty.for_particle(1), Some(&[][..]));
    let copy = sets.clone();
    assert_eq!(copy, sets);
}

#[test]
fn missing_rows_and_count_mismatches_are_reported() {
    let sets = complete_four_particle_sets();
    assert_eq!(interaction_row(3, &sets).unwrap(), &[0, 1, 2][..]);
    assert_eq!(
        interaction_row(7, &sets).unwrap_err(),
        NumericalError::ParticleIndexOutOfBounds {
            particle: 7,
            particle_count: 4,
        }
    );
    assert!(validate_snapshot_count(4, &sets).is_ok());
    assert_eq!(
        validate_snapshot_count(3, &sets).unwrap_err(),
        NumericalError::InteractionSetCount {
            expected: 3,
            actual: 4,
        }
    );
}

#[test]
fn support_filtering_keeps_flagged_entries_in_order() {
    let fixed = [1, 4, 6, 9];
    assert_eq!(
        retain_within_support(&fixed, &[true, false, true, true]),
        vec![1, 6, 9]
    );
    assert_eq!(
        retain_within_support(&fixed, &[false, false, false, false]),
        Vec::<usize>::new()
    );
    assert_eq!(retain_within_support(&[], &[]), Vec::<usize>::new());
}

#[test]
fn owner_term_is_placed_at_its_ascending_position() {
    assert_eq!(ordered_owner_position(2, &[0, 1, 3]), 2);
    assert_eq!(ordered_owner_position(0, &[1, 2, 3]), 0);
    assert_eq!(ordered_owner_position(3, &[0, 1, 2]), 3);
    assert_eq!(ordered_owner_position(5, &[]), 0);
    // Inserting the owner there gives an ascending summation order.
    let active = [0, 1, 3, 7];
    let position = ordered_owner_position(2, &active);
    let mut merged = active.to_vec();
    merged.insert(position, 2);
    assert_eq!(merged, vec![0, 1, 2, 3, 7]);
}

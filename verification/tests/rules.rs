// Concrete checks of the transition rule set: births, compassion,
// starvation, deferred death, sacrifice, decay, edge policy, and the
// synchronous (previous-values-only) reading of neighborhoods.

use bit_garden::cell::{CellState, Concept, Mutation};
use bit_garden::grid::{find_mutation, Grid};

/// An all-soil grid of side `w` with the given `(x, y, concept, blood)`
/// overrides.
fn make_grid(w: u32, cells: &[(u32, u32, Concept, i32)]) -> Grid {
    let n = (w as usize) * (w as usize);
    let mut data = vec![CellState { concept: Concept::Soil, blood: 0 }; n];
    for &(x, y, concept, blood) in cells {
        data[(x as usize) + (y as usize) * (w as usize)] = CellState { concept, blood };
    }
    Grid { width: w, cells: data }
}

fn cell_of(out: &[CellState], w: u32, x: u32, y: u32) -> CellState {
    out[(x as usize) + (y as usize) * (w as usize)]
}

#[test]
fn birth_with_three_neighbors() {
    let g = make_grid(
        5,
        &[
            (1, 1, Concept::Sunflower, 0),
            (2, 1, Concept::Sunflower, 0),
            (3, 1, Concept::Sunflower, 0),
        ],
    );
    assert_eq!(g.moore_count_at(2, 2), 3);
    assert_eq!(g.next_cell(2, 2), CellState { concept: Concept::Sunflower, blood: 0 });
}

#[test]
fn compassion_with_eight_neighbors() {
    let mut ring = Vec::new();
    for (dx, dy) in [(-1, -1), (0, -1), (1, -1), (-1, 0), (1, 0), (-1, 1), (0, 1), (1, 1)] {
        ring.push(((2 + dx) as u32, (2 + dy) as u32, Concept::Sunflower, 0));
    }
    let g = make_grid(5, &ring);
    assert_eq!(g.moore_count_at(2, 2), 8);
    assert_eq!(g.next_cell(2, 2).concept, Concept::Rose);
}

#[test]
fn soil_stays_soil_otherwise() {
    let g = make_grid(5, &[(1, 1, Concept::Sunflower, 0), (3, 1, Concept::Sunflower, 0)]);
    assert_eq!(g.next_cell(2, 2), CellState { concept: Concept::Soil, blood: 0 });
}

#[test]
fn starvation_without_love() {
    let g = make_grid(7, &[(3, 3, Concept::Sunflower, 2)]);
    assert_eq!(g.moore_count_at(3, 3), 0);
    assert_eq!(g.next_cell(3, 3), CellState { concept: Concept::Soil, blood: 0 });
}

#[test]
fn deferred_death_with_rose_in_ring() {
    let g = make_grid(7, &[(3, 3, Concept::Sunflower, 5), (5, 3, Concept::Rose, 0)]);
    assert_eq!(g.next_cell(3, 3), CellState { concept: Concept::Sunflower, blood: 6 });
}

#[test]
fn deferred_death_saturates_at_max_blood() {
    let g = make_grid(7, &[(3, 3, Concept::Sunflower, i32::MAX), (1, 1, Concept::Rose, 0)]);
    assert_eq!(g.next_cell(3, 3), CellState { concept: Concept::Sunflower, blood: i32::MAX });
}

#[test]
fn bloodied_sunflower_joins_the_dogwood() {
    let g = make_grid(7, &[(3, 3, Concept::Sunflower, 3), (5, 5, Concept::Dogwood, -10)]);
    assert_eq!(g.next_cell(3, 3), CellState { concept: Concept::Rose, blood: 3 });
}

#[test]
fn bloodied_sunflower_returns_to_dust_alone() {
    let g = make_grid(7, &[(3, 3, Concept::Sunflower, 3)]);
    assert_eq!(g.next_cell(3, 3), CellState { concept: Concept::Soil, blood: 0 });
}

#[test]
fn comfortable_sunflower_is_unchanged() {
    let g = make_grid(
        7,
        &[
            (3, 3, Concept::Sunflower, 9),
            (2, 3, Concept::Sunflower, 0),
            (4, 3, Concept::Sunflower, 0),
        ],
    );
    assert_eq!(g.next_cell(3, 3), CellState { concept: Concept::Sunflower, blood: 9 });
}

#[test]
fn overcrowded_sunflower_dies() {
    let mut cells = vec![(3, 3, Concept::Sunflower, 0)];
    for (dx, dy) in [(-1, -1), (0, -1), (1, -1), (-1, 0)] {
        cells.push(((3 + dx) as u32, (3 + dy) as u32, Concept::Sunflower, 0));
    }
    let g = make_grid(7, &cells);
    assert_eq!(g.moore_count_at(3, 3), 4);
    assert_eq!(g.next_cell(3, 3), CellState { concept: Concept::Soil, blood: 0 });
}

#[test]
fn sacrifice_at_twelve() {
    let g = make_grid(
        7,
        &[(3, 3, Concept::Rose, 0), (1, 1, Concept::Soil, 6), (5, 5, Concept::Soil, 6)],
    );
    assert_eq!(g.ring_blood_sum_at(3, 3), 12);
    assert_eq!(g.next_cell(3, 3), CellState { concept: Concept::Dogwood, blood: -50 });
}

#[test]
fn sacrifice_withheld_at_eleven() {
    let g = make_grid(
        7,
        &[(3, 3, Concept::Rose, 4), (1, 1, Concept::Soil, 6), (5, 5, Concept::Soil, 5)],
    );
    assert_eq!(g.ring_blood_sum_at(3, 3), 11);
    assert_eq!(g.next_cell(3, 3), CellState { concept: Concept::Rose, blood: 4 });
}

#[test]
fn ring_sum_excludes_the_center() {
    // The center's own blood never counts toward its suffering.
    let g = make_grid(
        7,
        &[(3, 3, Concept::Rose, 100), (2, 2, Concept::Soil, 7), (4, 3, Concept::Soil, -3)],
    );
    assert_eq!(g.ring_blood_sum_at(3, 3), 4);
}

#[test]
fn forgotten_at_minus_one() {
    let g = make_grid(5, &[(2, 2, Concept::Dogwood, -1)]);
    assert_eq!(g.next_cell(2, 2), CellState { concept: Concept::Soil, blood: 0 });
}

#[test]
fn fresh_dogwood_keeps_counting() {
    let g = make_grid(5, &[(2, 2, Concept::Dogwood, -50)]);
    assert_eq!(g.next_cell(2, 2), CellState { concept: Concept::Dogwood, blood: -49 });
}

#[test]
fn edges_are_excluded_not_wrapped() {
    // A corner Sunflower's only neighbors are the three in-bounds ones;
    // the far edge contributes nothing.
    let g = make_grid(
        5,
        &[
            (0, 0, Concept::Sunflower, 0),
            (1, 0, Concept::Sunflower, 0),
            (0, 1, Concept::Sunflower, 0),
            (4, 0, Concept::Sunflower, 0),
            (4, 4, Concept::Sunflower, 0),
        ],
    );
    assert_eq!(g.moore_count_at(0, 0), 2);
    assert_eq!(
        g.next_cell(0, 0),
        CellState { concept: Concept::Sunflower, blood: 0 }
    );
}

#[test]
fn step_reads_previous_values_only() {
    // A vertical blinker: simultaneous update turns it horizontal. An
    // in-place (read-after-write) update would not.
    let g = make_grid(
        5,
        &[
            (2, 1, Concept::Sunflower, 0),
            (2, 2, Concept::Sunflower, 0),
            (2, 3, Concept::Sunflower, 0),
        ],
    );
    let out = g.step(&Vec::new());
    assert_eq!(cell_of(&out, 5, 2, 1).concept, Concept::Soil);
    assert_eq!(cell_of(&out, 5, 2, 3).concept, Concept::Soil);
    assert_eq!(cell_of(&out, 5, 2, 2).concept, Concept::Sunflower);
    assert_eq!(cell_of(&out, 5, 1, 2).concept, Concept::Sunflower);
    assert_eq!(cell_of(&out, 5, 3, 2).concept, Concept::Sunflower);
    assert_eq!(cell_of(&out, 5, 1, 1).concept, Concept::Soil);
}

#[test]
fn mutation_overrides_the_rule() {
    let g = make_grid(
        5,
        &[
            (1, 1, Concept::Sunflower, 0),
            (2, 1, Concept::Sunflower, 0),
            (3, 1, Concept::Sunflower, 0),
        ],
    );
    // (2, 2) would be born a Sunflower; the queued override wins, blood reset.
    let muts = vec![Mutation { x: 2, y: 2, concept: Concept::Dogwood }];
    let out = g.step(&muts);
    assert_eq!(cell_of(&out, 5, 2, 2), CellState { concept: Concept::Dogwood, blood: 0 });
}

#[test]
fn newest_mutation_wins_a_cell() {
    let g = make_grid(5, &[]);
    // Batches are ordered newest first; the first match takes the cell.
    let muts = vec![
        Mutation { x: 2, y: 2, concept: Concept::Rose },
        Mutation { x: 2, y: 2, concept: Concept::Dogwood },
    ];
    assert_eq!(
        find_mutation(&muts, 2, 2),
        Some(Mutation { x: 2, y: 2, concept: Concept::Rose })
    );
    assert_eq!(find_mutation(&muts, 1, 2), None);
    let out = g.step(&muts);
    assert_eq!(cell_of(&out, 5, 2, 2), CellState { concept: Concept::Rose, blood: 0 });
}

#[test]
fn out_of_bounds_mutation_is_dropped() {
    let g = make_grid(5, &[(2, 2, Concept::Dogwood, -30)]);
    let muts = vec![Mutation { x: 1000, y: 1000, concept: Concept::Rose }];
    let with = g.step(&muts);
    let without = g.step(&Vec::new());
    assert_eq!(with, without);
}

#[test]
fn initial_pattern_is_a_sunflower_frame() {
    let g = Grid::initial(6);
    assert_eq!(g.cells.len(), 36);
    let sf = |x: u32, y: u32| g.cells[(x as usize) + (y as usize) * 6].concept;
    for y in 1..=4 {
        assert_eq!(sf(1, y), Concept::Sunflower);
        assert_eq!(sf(4, y), Concept::Sunflower);
    }
    for x in 2..=3 {
        assert_eq!(sf(x, 1), Concept::Sunflower);
        assert_eq!(sf(x, 4), Concept::Sunflower);
    }
    let total = g.cells.iter().filter(|c| c.concept == Concept::Sunflower).count();
    assert_eq!(total, 12);
    assert_eq!(sf(0, 0), Concept::Soil);
    assert_eq!(sf(3, 3), Concept::Soil);
    assert!(g.cells.iter().all(|c| c.blood == 0));
}

#[test]
fn smallest_supported_garden_is_all_soil() {
    let g = Grid::initial(2);
    assert_eq!(g.cells.len(), 4);
    assert!(g.cells.iter().all(|c| *c == CellState { concept: Concept::Soil, blood: 0 }));
    let out = g.step(&Vec::new());
    assert_eq!(out, g.cells);
}

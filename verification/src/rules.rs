//! The transition rule set of the garden, as a pure mathematical
//! specification over a row-major sequence of cells.
//!
//! All rules are synchronous: every cell's successor is a function of the
//! *previous* step's grid alone. Neighbor lookups that fall outside the grid
//! are excluded from every count and sum (no wraparound).

use vstd::prelude::*;
use crate::cell::{CellState, Concept, Mutation};

verus! {

/// Row-major index of the cell at `(x, y)` in a square grid of side `w`.
pub open spec fn cell_index(w: int, x: int, y: int) -> int {
    x + y * w
}

/// Whether `(x, y)` lies inside a square grid of side `w`.
pub open spec fn in_bounds(w: int, x: int, y: int) -> bool {
    0 <= x < w && 0 <= y < w
}

/// The cell read at `(x, y)`, with every out-of-bounds coordinate reading as
/// inert soil. The transition rules only ever ask a neighborhood for
/// Sunflower, Rose or Dogwood occupancy and for blood, so this padding is
/// exactly the edge policy of excluding out-of-bounds neighbors.
pub open spec fn cell_or_soil(cells: Seq<CellState>, w: int, x: int, y: int) -> CellState {
    if in_bounds(w, x, y) {
        cells[cell_index(w, x, y)]
    } else {
        CellState { concept: Concept::Soil, blood: 0 }
    }
}

/// Whether an in-bounds cell at `(x, y)` holds concept `c`.
pub open spec fn has_concept(cells: Seq<CellState>, w: int, x: int, y: int, c: Concept) -> bool {
    in_bounds(w, x, y) && cell_or_soil(cells, w, x, y).concept == c
}

/// One if the cell at `(x, y)` is an in-bounds Sunflower, zero otherwise.
pub open spec fn sunflower_count(cells: Seq<CellState>, w: int, x: int, y: int) -> int {
    if has_concept(cells, w, x, y, Concept::Sunflower) {
        1
    } else {
        0
    }
}

/// The number of Sunflowers among the 8 Moore neighbors of `(x, y)`
/// (Chebyshev distance exactly 1).
pub open spec fn moore_count(cells: Seq<CellState>, w: int, x: int, y: int) -> int {
    sunflower_count(cells, w, x - 1, y - 1) + sunflower_count(cells, w, x, y - 1)
        + sunflower_count(cells, w, x + 1, y - 1) + sunflower_count(cells, w, x - 1, y)
        + sunflower_count(cells, w, x + 1, y) + sunflower_count(cells, w, x - 1, y + 1)
        + sunflower_count(cells, w, x, y + 1) + sunflower_count(cells, w, x + 1, y + 1)
}

/// Whether any of the 16 cells at Chebyshev distance exactly 2 from `(x, y)`
/// (the 5x5 neighborhood minus the inner 3x3) holds concept `c`.
pub open spec fn in_outer_ring(cells: Seq<CellState>, w: int, x: int, y: int, c: Concept) -> bool {
    ||| has_concept(cells, w, x - 2, y - 2, c)
    ||| has_concept(cells, w, x - 1, y - 2, c)
    ||| has_concept(cells, w, x, y - 2, c)
    ||| has_concept(cells, w, x + 1, y - 2, c)
    ||| has_concept(cells, w, x + 2, y - 2, c)
    ||| has_concept(cells, w, x - 2, y - 1, c)
    ||| has_concept(cells, w, x + 2, y - 1, c)
    ||| has_concept(cells, w, x - 2, y, c)
    ||| has_concept(cells, w, x + 2, y, c)
    ||| has_concept(cells, w, x - 2, y + 1, c)
    ||| has_concept(cells, w, x + 2, y + 1, c)
    ||| has_concept(cells, w, x - 2, y + 2, c)
    ||| has_concept(cells, w, x - 1, y + 2, c)
    ||| has_concept(cells, w, x, y + 2, c)
    ||| has_concept(cells, w, x + 1, y + 2, c)
    ||| has_concept(cells, w, x + 2, y + 2, c)
}

/// The blood of the cell at `(x, y)`, out-of-bounds coordinates contributing
/// zero.
pub open spec fn blood_at(cells: Seq<CellState>, w: int, x: int, y: int) -> int {
    cell_or_soil(cells, w, x, y).blood as int
}

/// The sum of blood over the 24 cells within Chebyshev distance 2 of
/// `(x, y)`, the center itself excluded.
pub open spec fn ring_blood_sum(cells: Seq<CellState>, w: int, x: int, y: int) -> int {
    blood_at(cells, w, x - 2, y - 2) + blood_at(cells, w, x - 1, y - 2)
        + blood_at(cells, w, x, y - 2) + blood_at(cells, w, x + 1, y - 2)
        + blood_at(cells, w, x + 2, y - 2) + blood_at(cells, w, x - 2, y - 1)
        + blood_at(cells, w, x - 1, y - 1) + blood_at(cells, w, x, y - 1)
        + blood_at(cells, w, x + 1, y - 1) + blood_at(cells, w, x + 2, y - 1)
        + blood_at(cells, w, x - 2, y) + blood_at(cells, w, x - 1, y)
        + blood_at(cells, w, x + 1, y) + blood_at(cells, w, x + 2, y)
        + blood_at(cells, w, x - 2, y + 1) + blood_at(cells, w, x - 1, y + 1)
        + blood_at(cells, w, x, y + 1) + blood_at(cells, w, x + 1, y + 1)
        + blood_at(cells, w, x + 2, y + 1) + blood_at(cells, w, x - 2, y + 2)
        + blood_at(cells, w, x - 1, y + 2) + blood_at(cells, w, x, y + 2)
        + blood_at(cells, w, x + 1, y + 2) + blood_at(cells, w, x + 2, y + 2)
}

/// Blood incremented by one, held at `i32::MAX` instead of wrapping.
pub open spec fn saturating_inc(b: i32) -> i32 {
    if b == i32::MAX {
        b
    } else {
        (b + 1) as i32
    }
}

/// The successor of the cell at `(x, y)`, computed from the previous grid
/// alone:
/// - Soil with exactly 3 Sunflower Moore neighbors becomes a Sunflower
///   (birth); with all 8 it becomes a Rose (compassion); otherwise unchanged.
/// - A Sunflower that is overcrowded (more than 3) or starved (fewer than 2)
///   is a candidate for death: a Rose anywhere in its outer ring defers the
///   death and the blood grows by one; failing that, with blood above 2 a
///   Dogwood in the outer ring turns it into a Rose, and otherwise it reverts
///   to soil with blood reset. A comfortable Sunflower is unchanged.
/// - A Rose whose 24-cell ring has a blood sum of at least 12 sacrifices
///   itself into a Dogwood with blood -50; otherwise unchanged.
/// - A Dogwood's blood rises by one each step; once it reaches 0 the cell
///   reverts to soil with blood reset.
pub open spec fn cell_transition(cells: Seq<CellState>, w: int, x: int, y: int) -> CellState {
    let c = cells[cell_index(w, x, y)];
    match c.concept {
        Concept::Soil => {
            if moore_count(cells, w, x, y) == 3 {
                CellState { concept: Concept::Sunflower, blood: 0 }
            } else if moore_count(cells, w, x, y) == 8 {
                CellState { concept: Concept::Rose, blood: c.blood }
            } else {
                c
            }
        },
        Concept::Sunflower => {
            let m = moore_count(cells, w, x, y);
            if m > 3 || m < 2 {
                if in_outer_ring(cells, w, x, y, Concept::Rose) {
                    CellState { concept: Concept::Sunflower, blood: saturating_inc(c.blood) }
                } else if c.blood > 2 {
                    if in_outer_ring(cells, w, x, y, Concept::Dogwood) {
                        CellState { concept: Concept::Rose, blood: c.blood }
                    } else {
                        CellState { concept: Concept::Soil, blood: 0 }
                    }
                } else {
                    CellState { concept: Concept::Soil, blood: 0 }
                }
            } else {
                c
            }
        },
        Concept::Rose => {
            if ring_blood_sum(cells, w, x, y) >= 12 {
                CellState { concept: Concept::Dogwood, blood: -50i32 }
            } else {
                c
            }
        },
        Concept::Dogwood => {
            let b = saturating_inc(c.blood);
            if b >= 0 {
                CellState { concept: Concept::Soil, blood: 0 }
            } else {
                CellState { concept: Concept::Dogwood, blood: b }
            }
        },
    }
}

/// The first mutation in the batch that targets `(x, y)`, if any. The batch
/// is ordered newest first, so the most recently requested override of a cell
/// wins.
pub open spec fn mutation_for(muts: Seq<Mutation>, x: int, y: int) -> Option<Mutation>
    decreases muts.len(),
{
    if muts.len() == 0 {
        None::<Mutation>
    } else if muts[0].x == x && muts[0].y == y {
        Some(muts[0])
    } else {
        mutation_for(muts.subrange(1, muts.len() as int), x, y)
    }
}

/// The value the step writes at `(x, y)`: a queued override of that cell, if
/// one is in the batch (blood reset), and the rule-set successor otherwise.
/// A mutation aimed outside the grid targets no cell and is dropped.
pub open spec fn step_cell(
    cells: Seq<CellState>,
    w: int,
    muts: Seq<Mutation>,
    x: int,
    y: int,
) -> CellState {
    match mutation_for(muts, x, y) {
        Some(m) => CellState { concept: m.concept, blood: 0 },
        None => cell_transition(cells, w, x, y),
    }
}

/// One whole synchronous step: every cell of the successor grid is
/// `step_cell` of the previous grid, so no cell ever reads another cell's
/// already-updated value.
pub open spec fn step_grid(cells: Seq<CellState>, w: int, muts: Seq<Mutation>) -> Seq<CellState> {
    Seq::new(cells.len(), |i: int| step_cell(cells, w, muts, i % w, i / w))
}

/// A history of completed steps: the grid after folding in one batch per
/// step, oldest batch first.
pub open spec fn run_steps(
    cells: Seq<CellState>,
    w: int,
    batches: Seq<Seq<Mutation>>,
) -> Seq<CellState>
    decreases batches.len(),
{
    if batches.len() == 0 {
        cells
    } else {
        run_steps(step_grid(cells, w, batches[0]), w, batches.subrange(1, batches.len() as int))
    }
}

/// Appending one more batch to a history of steps runs it last.
pub proof fn lemma_run_steps_snoc(
    cells: Seq<CellState>,
    w: int,
    batches: Seq<Seq<Mutation>>,
    b: Seq<Mutation>,
)
    ensures
        run_steps(cells, w, batches.push(b)) == step_grid(run_steps(cells, w, batches), w, b),
    decreases batches.len(),
{
    if batches.len() == 0 {
        assert(batches.push(b)[0] == b);
        assert(batches.push(b).subrange(1, batches.push(b).len() as int)
            =~= Seq::<Seq<Mutation>>::empty());
        assert(run_steps(step_grid(cells, w, b), w, Seq::<Seq<Mutation>>::empty()) == step_grid(
            cells,
            w,
            b,
        ));
    } else {
        assert(batches.push(b)[0] == batches[0]);
        assert(batches.push(b).subrange(1, batches.push(b).len() as int) =~= batches.subrange(
            1,
            batches.len() as int,
        ).push(b));
        lemma_run_steps_snoc(
            step_grid(cells, w, batches[0]),
            w,
            batches.subrange(1, batches.len() as int),
            b,
        );
    }
}

/// The cell at `(x, y)` of the freshly constructed garden: a rectangular
/// frame of Sunflowers one cell in from the border (its columns spanning
/// rows 1 through `w - 2`, its rows spanning columns 2 through `w - 3`),
/// everything else soil.
pub open spec fn initial_cell(w: int, x: int, y: int) -> CellState {
    if ((x == 1 || x == w - 2) && 1 <= y <= w - 2) || ((y == 1 || y == w - 2) && 2 <= x <= w - 3) {
        CellState { concept: Concept::Sunflower, blood: 0 }
    } else {
        CellState { concept: Concept::Soil, blood: 0 }
    }
}

/// The freshly constructed garden of side `w`.
pub open spec fn initial_grid(w: int) -> Seq<CellState> {
    Seq::new((w * w) as nat, |i: int| initial_cell(w, i % w, i / w))
}

} // verus!

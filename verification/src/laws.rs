//! The laws of the garden: what holds of the transition rule set and of the
//! step engine for every grid, stated and proved once and for all.

use vstd::prelude::*;
use crate::cell::{CellState, Concept};
use crate::engine::Runner;
use crate::rules::{
    cell_index, cell_or_soil, cell_transition, in_bounds, in_outer_ring, moore_count,
    ring_blood_sum, run_steps,
};

verus! {

/// Purity and locality of the rule set: the successor of a cell is a
/// function of the previous grid's 5x5 neighborhood of that cell alone —
/// two grids that agree on every in-bounds cell within Chebyshev distance 2
/// of `(x, y)` give `(x, y)` the same successor. In particular a cell's
/// successor can never depend on another cell's already-updated value within
/// the same step, which is what lets every cell of a step be computed
/// independently and in parallel.
#[verifier::rlimit(60)]
pub proof fn lemma_transition_local(a: Seq<CellState>, b: Seq<CellState>, w: int, x: int, y: int)
    requires
        a.len() == w * w,
        b.len() == w * w,
        in_bounds(w, x, y),
        forall|u: int, v: int|
            #![trigger cell_index(w, u, v)]
            x - 2 <= u <= x + 2 && y - 2 <= v <= y + 2 && in_bounds(w, u, v) ==> a[cell_index(
                w,
                u,
                v,
            )] == b[cell_index(w, u, v)],
    ensures
        cell_transition(a, w, x, y) == cell_transition(b, w, x, y),
{
    assert(cell_or_soil(a, w, x - 2, y - 2) == cell_or_soil(b, w, x - 2, y - 2));
    assert(cell_or_soil(a, w, x - 1, y - 2) == cell_or_soil(b, w, x - 1, y - 2));
    assert(cell_or_soil(a, w, x, y - 2) == cell_or_soil(b, w, x, y - 2));
    assert(cell_or_soil(a, w, x + 1, y - 2) == cell_or_soil(b, w, x + 1, y - 2));
    assert(cell_or_soil(a, w, x + 2, y - 2) == cell_or_soil(b, w, x + 2, y - 2));
    assert(cell_or_soil(a, w, x - 2, y - 1) == cell_or_soil(b, w, x - 2, y - 1));
    assert(cell_or_soil(a, w, x - 1, y - 1) == cell_or_soil(b, w, x - 1, y - 1));
    assert(cell_or_soil(a, w, x, y - 1) == cell_or_soil(b, w, x, y - 1));
    assert(cell_or_soil(a, w, x + 1, y - 1) == cell_or_soil(b, w, x + 1, y - 1));
    assert(cell_or_soil(a, w, x + 2, y - 1) == cell_or_soil(b, w, x + 2, y - 1));
    assert(cell_or_soil(a, w, x - 2, y) == cell_or_soil(b, w, x - 2, y));
    assert(cell_or_soil(a, w, x - 1, y) == cell_or_soil(b, w, x - 1, y));
    assert(cell_or_soil(a, w, x, y) == cell_or_soil(b, w, x, y));
    assert(cell_or_soil(a, w, x + 1, y) == cell_or_soil(b, w, x + 1, y));
    assert(cell_or_soil(a, w, x + 2, y) == cell_or_soil(b, w, x + 2, y));
    assert(cell_or_soil(a, w, x - 2, y + 1) == cell_or_soil(b, w, x - 2, y + 1));
    assert(cell_or_soil(a, w, x - 1, y + 1) == cell_or_soil(b, w, x - 1, y + 1));
    assert(cell_or_soil(a, w, x, y + 1) == cell_or_soil(b, w, x, y + 1));
    assert(cell_or_soil(a, w, x + 1, y + 1) == cell_or_soil(b, w, x + 1, y + 1));
    assert(cell_or_soil(a, w, x + 2, y + 1) == cell_or_soil(b, w, x + 2, y + 1));
    assert(cell_or_soil(a, w, x - 2, y + 2) == cell_or_soil(b, w, x - 2, y + 2));
    assert(cell_or_soil(a, w, x - 1, y + 2) == cell_or_soil(b, w, x - 1, y + 2));
    assert(cell_or_soil(a, w, x, y + 2) == cell_or_soil(b, w, x, y + 2));
    assert(cell_or_soil(a, w, x + 1, y + 2) == cell_or_soil(b, w, x + 1, y + 2));
    assert(cell_or_soil(a, w, x + 2, y + 2) == cell_or_soil(b, w, x + 2, y + 2));
    assert(a[cell_index(w, x, y)] == b[cell_index(w, x, y)]);
    assert(moore_count(a, w, x, y) == moore_count(b, w, x, y));
    assert(ring_blood_sum(a, w, x, y) == ring_blood_sum(b, w, x, y));
    assert(in_outer_ring(a, w, x, y, Concept::Rose) == in_outer_ring(b, w, x, y, Concept::Rose));
    assert(in_outer_ring(a, w, x, y, Concept::Dogwood) == in_outer_ring(
        b,
        w,
        x,
        y,
        Concept::Dogwood,
    ));
}

/// Birth: a Soil cell with exactly 3 Sunflower Moore neighbors becomes a
/// Sunflower with blood 0.
pub proof fn lemma_birth(cells: Seq<CellState>, w: int, x: int, y: int)
    requires
        in_bounds(w, x, y),
        cells[cell_index(w, x, y)].concept == Concept::Soil,
        moore_count(cells, w, x, y) == 3,
    ensures
        cell_transition(cells, w, x, y) == (CellState { concept: Concept::Sunflower, blood: 0 }),
{
}

/// Compassion: a Soil cell whose 8 Moore neighbors are all Sunflowers
/// becomes a Rose.
pub proof fn lemma_compassion(cells: Seq<CellState>, w: int, x: int, y: int)
    requires
        in_bounds(w, x, y),
        cells[cell_index(w, x, y)].concept == Concept::Soil,
        moore_count(cells, w, x, y) == 8,
    ensures
        cell_transition(cells, w, x, y).concept == Concept::Rose,
{
}

/// Starvation without love: a Sunflower with no Sunflower Moore neighbor, no
/// Rose anywhere in its outer ring, and blood at most 2 reverts to soil with
/// blood 0.
pub proof fn lemma_starvation(cells: Seq<CellState>, w: int, x: int, y: int)
    requires
        in_bounds(w, x, y),
        cells[cell_index(w, x, y)].concept == Concept::Sunflower,
        cells[cell_index(w, x, y)].blood <= 2,
        moore_count(cells, w, x, y) == 0,
        !in_outer_ring(cells, w, x, y, Concept::Rose),
    ensures
        cell_transition(cells, w, x, y) == (CellState { concept: Concept::Soil, blood: 0 }),
{
}

/// Deferred death: a starved Sunflower with a Rose somewhere in its outer
/// ring stays a Sunflower and its blood grows by exactly 1. (At the
/// saturation bound `i32::MAX` — unreachable from any constructed garden in
/// fewer steps than the bound itself — the blood stays put instead.)
pub proof fn lemma_deferred_death(cells: Seq<CellState>, w: int, x: int, y: int)
    requires
        in_bounds(w, x, y),
        cells[cell_index(w, x, y)].concept == Concept::Sunflower,
        cells[cell_index(w, x, y)].blood < i32::MAX,
        moore_count(cells, w, x, y) == 0,
        in_outer_ring(cells, w, x, y, Concept::Rose),
    ensures
        cell_transition(cells, w, x, y).concept == Concept::Sunflower,
        cell_transition(cells, w, x, y).blood == cells[cell_index(w, x, y)].blood + 1,
{
}

/// Sacrifice: a Rose whose 24-cell ring has a blood sum of at least 12
/// becomes a Dogwood with blood -50.
pub proof fn lemma_sacrifice(cells: Seq<CellState>, w: int, x: int, y: int)
    requires
        in_bounds(w, x, y),
        cells[cell_index(w, x, y)].concept == Concept::Rose,
        ring_blood_sum(cells, w, x, y) >= 12,
    ensures
        cell_transition(cells, w, x, y) == (CellState { concept: Concept::Dogwood, blood: -50i32 }),
{
}

/// Sacrifice withheld: a Rose whose ring blood sum is below 12 (11, say) is
/// unchanged.
pub proof fn lemma_sacrifice_withheld(cells: Seq<CellState>, w: int, x: int, y: int)
    requires
        in_bounds(w, x, y),
        cells[cell_index(w, x, y)].concept == Concept::Rose,
        ring_blood_sum(cells, w, x, y) < 12,
    ensures
        cell_transition(cells, w, x, y) == cells[cell_index(w, x, y)],
{
}

/// Forgotten: a Dogwood's blood steps up by one; at blood -1 it steps to 0
/// and the cell reverts to soil, while at any lower blood (such as -50) it
/// stays a Dogwood.
pub proof fn lemma_forgotten(cells: Seq<CellState>, w: int, x: int, y: int)
    requires
        in_bounds(w, x, y),
        cells[cell_index(w, x, y)].concept == Concept::Dogwood,
        cells[cell_index(w, x, y)].blood < 0,
    ensures
        cells[cell_index(w, x, y)].blood == -1 ==> cell_transition(cells, w, x, y) == (CellState {
            concept: Concept::Soil,
            blood: 0,
        }),
        cells[cell_index(w, x, y)].blood < -1 ==> cell_transition(cells, w, x, y) == (CellState {
            concept: Concept::Dogwood,
            blood: (cells[cell_index(w, x, y)].blood + 1) as i32,
        }),
{
}

/// Double-buffer safety, structurally: the buffer the next step writes is
/// never the published one, so a reader's snapshot is never a buffer that a
/// step is writing.
pub proof fn lemma_write_is_not_published(r: Runner)
    requires
        r.wf(),
    ensures
        r.write_index() != r.published_index(),
{
}

/// Double-buffer safety, historically: the published buffer of a
/// well-formed engine is exactly the initial garden stepped once per
/// completed tick with the batches those ticks drained — the state after
/// the completed prefix of the steps, never a partial one. A reader that
/// took its snapshot some ticks ago holds the state after a shorter prefix.
pub proof fn lemma_published_is_a_completed_prefix(r: Runner)
    requires
        r.wf(),
    ensures
        r.published_view() == run_steps(r.genesis@, r.world_width as int, r.steps@),
{
}

} // verus!

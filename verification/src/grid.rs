//! The grid: a fixed-size row-major array of cells, with executable,
//! verified implementations of the neighborhood probes, of the per-cell
//! transition, and of one whole synchronous step.

use vstd::prelude::*;
use crate::cell::{CellState, Concept, Mutation};
use crate::rules::{
    blood_at, cell_index, cell_transition, has_concept, initial_cell, initial_grid, moore_count,
    mutation_for, in_outer_ring, ring_blood_sum, step_cell, step_grid,
};

verus! {

/// The largest supported grid side: keeps every row-major index, and the
/// total cell count, within `u32` and within a 32-bit `usize`.
pub const MAX_WORLD_WIDTH: u32 = 65535;

/// A square garden of `width * width` cells in row-major order, the cell at
/// `(x, y)` stored at `x + y * width`. Dimensions never change after
/// construction.
pub struct Grid {
    pub width: u32,
    pub cells: Vec<CellState>,
}

impl Grid {
    /// A grid is well formed when its side is in the supported range and its
    /// cell array holds exactly `width * width` entries.
    pub open spec fn wf(self) -> bool {
        &&& 2 <= self.width <= MAX_WORLD_WIDTH
        &&& self.cells@.len() == self.width * self.width
    }

    /// The freshly constructed garden: a frame of Sunflowers one cell in
    /// from the border, soil everywhere else.
    pub fn initial(width: u32) -> (g: Grid)
        requires
            2 <= width <= MAX_WORLD_WIDTH,
        ensures
            g.wf(),
            g.width == width,
            g.cells@ == initial_grid(width as int),
    {
        let w: usize = width as usize;
        proof {
            assert(w * w <= 0xFFFF * 0xFFFF) by (nonlinear_arith)
                requires
                    w <= 0xFFFF,
            ;
        }
        let n: usize = w * w;
        let mut cells: Vec<CellState> = Vec::new();
        let mut i: usize = 0;
        while i < n
            invariant
                2 <= width <= MAX_WORLD_WIDTH,
                w == width,
                n == w * w,
                i <= n,
                cells@.len() == i,
                forall|k: int|
                    0 <= k < i ==> cells@[k] == initial_cell(width as int, k % (width as int), k / (width as int)),
            decreases n - i,
        {
            proof {
                assert(i % w < w && i / w < w) by (nonlinear_arith)
                    requires
                        0 < w,
                        i < w * w,
                ;
            }
            let x: u32 = (i % w) as u32;
            let y: u32 = (i / w) as u32;
            cells.push(initial_cell_exec(width, x, y));
            i = i + 1;
        }
        let g = Grid { width, cells };
        proof {
            assert(g.cells@ =~= initial_grid(width as int));
        }
        g
    }

    /// Whether `(x, y)` is inside the grid and holds concept `c`. The
    /// coordinates may point up to two cells past any edge.
    fn probe(&self, x: i64, y: i64, c: Concept) -> (r: bool)
        requires
            self.wf(),
            -2 <= x <= MAX_WORLD_WIDTH + 2,
            -2 <= y <= MAX_WORLD_WIDTH + 2,
        ensures
            r == has_concept(self.cells@, self.width as int, x as int, y as int, c),
    {
        if 0 <= x && x < self.width as i64 && 0 <= y && y < self.width as i64 {
            let i = self.index_of(x as u32, y as u32);
            self.cells[i].concept == c
        } else {
            false
        }
    }

    /// The blood at `(x, y)`, zero when the coordinates fall outside the
    /// grid.
    fn blood_probe(&self, x: i64, y: i64) -> (b: i64)
        requires
            self.wf(),
            -2 <= x <= MAX_WORLD_WIDTH + 2,
            -2 <= y <= MAX_WORLD_WIDTH + 2,
        ensures
            b == blood_at(self.cells@, self.width as int, x as int, y as int),
            i32::MIN <= b <= i32::MAX,
    {
        if 0 <= x && x < self.width as i64 && 0 <= y && y < self.width as i64 {
            let i = self.index_of(x as u32, y as u32);
            self.cells[i].blood as i64
        } else {
            0
        }
    }

    /// The row-major position of the in-bounds cell `(x, y)`.
    fn index_of(&self, x: u32, y: u32) -> (i: usize)
        requires
            self.wf(),
            x < self.width,
            y < self.width,
        ensures
            i == cell_index(self.width as int, x as int, y as int),
            i < self.cells@.len(),
    {
        proof {
            assert(x + y * self.width < self.width * self.width
                && self.width * self.width <= 0xFFFF * 0xFFFF) by (nonlinear_arith)
                requires
                    x < self.width,
                    y < self.width,
                    self.width <= 0xFFFF,
            ;
        }
        (x as usize) + (y as usize) * (self.width as usize)
    }

    /// The number of Sunflowers among the 8 Moore neighbors of `(x, y)`.
    pub fn moore_count_at(&self, x: u32, y: u32) -> (n: u32)
        requires
            self.wf(),
            x < self.width,
            y < self.width,
        ensures
            n == moore_count(self.cells@, self.width as int, x as int, y as int),
            n <= 8,
    {
        let xi = x as i64;
        let yi = y as i64;
        let mut n: u32 = 0;
        if self.probe(xi - 1, yi - 1, Concept::Sunflower) {
            n = n + 1;
        }
        if self.probe(xi, yi - 1, Concept::Sunflower) {
            n = n + 1;
        }
        if self.probe(xi + 1, yi - 1, Concept::Sunflower) {
            n = n + 1;
        }
        if self.probe(xi - 1, yi, Concept::Sunflower) {
            n = n + 1;
        }
        if self.probe(xi + 1, yi, Concept::Sunflower) {
            n = n + 1;
        }
        if self.probe(xi - 1, yi + 1, Concept::Sunflower) {
            n = n + 1;
        }
        if self.probe(xi, yi + 1, Concept::Sunflower) {
            n = n + 1;
        }
        if self.probe(xi + 1, yi + 1, Concept::Sunflower) {
            n = n + 1;
        }
        n
    }

    /// Whether any cell at Chebyshev distance exactly 2 from `(x, y)` holds
    /// concept `c`.
    pub fn in_outer_ring_at(&self, x: u32, y: u32, c: Concept) -> (r: bool)
        requires
            self.wf(),
            x < self.width,
            y < self.width,
        ensures
            r == in_outer_ring(self.cells@, self.width as int, x as int, y as int, c),
    {
        let xi = x as i64;
        let yi = y as i64;
        self.probe(xi - 2, yi - 2, c) || self.probe(xi - 1, yi - 2, c)
            || self.probe(xi, yi - 2, c) || self.probe(xi + 1, yi - 2, c)
            || self.probe(xi + 2, yi - 2, c) || self.probe(xi - 2, yi - 1, c)
            || self.probe(xi + 2, yi - 1, c) || self.probe(xi - 2, yi, c)
            || self.probe(xi + 2, yi, c) || self.probe(xi - 2, yi + 1, c)
            || self.probe(xi + 2, yi + 1, c) || self.probe(xi - 2, yi + 2, c)
            || self.probe(xi - 1, yi + 2, c) || self.probe(xi, yi + 2, c)
            || self.probe(xi + 1, yi + 2, c) || self.probe(xi + 2, yi + 2, c)
    }

    /// The sum of blood over the 24 cells within Chebyshev distance 2 of
    /// `(x, y)`, the center excluded.
    #[verifier::rlimit(50)]
    pub fn ring_blood_sum_at(&self, x: u32, y: u32) -> (s: i64)
        requires
            self.wf(),
            x < self.width,
            y < self.width,
        ensures
            s == ring_blood_sum(self.cells@, self.width as int, x as int, y as int),
    {
        let xi = x as i64;
        let yi = y as i64;
        let mut s: i64 = 0;
        s = s + self.blood_probe(xi - 2, yi - 2);
        s = s + self.blood_probe(xi - 1, yi - 2);
        s = s + self.blood_probe(xi, yi - 2);
        s = s + self.blood_probe(xi + 1, yi - 2);
        s = s + self.blood_probe(xi + 2, yi - 2);
        s = s + self.blood_probe(xi - 2, yi - 1);
        s = s + self.blood_probe(xi - 1, yi - 1);
        s = s + self.blood_probe(xi, yi - 1);
        s = s + self.blood_probe(xi + 1, yi - 1);
        s = s + self.blood_probe(xi + 2, yi - 1);
        s = s + self.blood_probe(xi - 2, yi);
        s = s + self.blood_probe(xi - 1, yi);
        s = s + self.blood_probe(xi + 1, yi);
        s = s + self.blood_probe(xi + 2, yi);
        s = s + self.blood_probe(xi - 2, yi + 1);
        s = s + self.blood_probe(xi - 1, yi + 1);
        s = s + self.blood_probe(xi, yi + 1);
        s = s + self.blood_probe(xi + 1, yi + 1);
        s = s + self.blood_probe(xi + 2, yi + 1);
        s = s + self.blood_probe(xi - 2, yi + 2);
        s = s + self.blood_probe(xi - 1, yi + 2);
        s = s + self.blood_probe(xi, yi + 2);
        s = s + self.blood_probe(xi + 1, yi + 2);
        s = s + self.blood_probe(xi + 2, yi + 2);
        s
    }

    /// The successor of the cell at `(x, y)` under the transition rule set,
    /// computed from this grid alone.
    pub fn next_cell(&self, x: u32, y: u32) -> (c: CellState)
        requires
            self.wf(),
            x < self.width,
            y < self.width,
        ensures
            c == cell_transition(self.cells@, self.width as int, x as int, y as int),
    {
        let i = self.index_of(x, y);
        let cur = self.cells[i];
        match cur.concept {
            Concept::Soil => {
                let m = self.moore_count_at(x, y);
                if m == 3 {
                    CellState { concept: Concept::Sunflower, blood: 0 }
                } else if m == 8 {
                    CellState { concept: Concept::Rose, blood: cur.blood }
                } else {
                    cur
                }
            },
            Concept::Sunflower => {
                let m = self.moore_count_at(x, y);
                if m > 3 || m < 2 {
                    if self.in_outer_ring_at(x, y, Concept::Rose) {
                        let b = if cur.blood == i32::MAX {
                            cur.blood
                        } else {
                            cur.blood + 1
                        };
                        CellState { concept: Concept::Sunflower, blood: b }
                    } else if cur.blood > 2 {
                        if self.in_outer_ring_at(x, y, Concept::Dogwood) {
                            CellState { concept: Concept::Rose, blood: cur.blood }
                        } else {
                            CellState { concept: Concept::Soil, blood: 0 }
                        }
                    } else {
                        CellState { concept: Concept::Soil, blood: 0 }
                    }
                } else {
                    cur
                }
            },
            Concept::Rose => {
                let s = self.ring_blood_sum_at(x, y);
                if s >= 12 {
                    CellState { concept: Concept::Dogwood, blood: -50 }
                } else {
                    cur
                }
            },
            Concept::Dogwood => {
                let b = if cur.blood == i32::MAX {
                    cur.blood
                } else {
                    cur.blood + 1
                };
                if b >= 0 {
                    CellState { concept: Concept::Soil, blood: 0 }
                } else {
                    CellState { concept: Concept::Dogwood, blood: b }
                }
            },
        }
    }

    /// One whole synchronous step of the grid: the returned array is the
    /// successor of every cell, each computed from this grid's previous
    /// values alone, with the batched mutations folded in.
    pub fn step(&self, muts: &Vec<Mutation>) -> (out: Vec<CellState>)
        requires
            self.wf(),
        ensures
            out@ == step_grid(self.cells@, self.width as int, muts@),
            out@.len() == self.cells@.len(),
    {
        let w: usize = self.width as usize;
        let n: usize = self.cells.len();
        let mut out: Vec<CellState> = Vec::new();
        let mut i: usize = 0;
        while i < n
            invariant
                self.wf(),
                w == self.width,
                n == self.cells@.len(),
                i <= n,
                out@.len() == i,
                forall|k: int|
                    0 <= k < i ==> out@[k] == step_cell(
                        self.cells@,
                        self.width as int,
                        muts@,
                        k % (self.width as int),
                        k / (self.width as int),
                    ),
            decreases n - i,
        {
            proof {
                assert(i % w < w && i / w < w) by (nonlinear_arith)
                    requires
                        0 < w,
                        i < w * w,
                ;
            }
            let x: u32 = (i % w) as u32;
            let y: u32 = (i / w) as u32;
            let c = match find_mutation(muts, x, y) {
                Some(m) => CellState { concept: m.concept, blood: 0 },
                None => self.next_cell(x, y),
            };
            out.push(c);
            i = i + 1;
        }
        proof {
            assert(out@ =~= step_grid(self.cells@, self.width as int, muts@));
        }
        out
    }
}

/// The initial-pattern cell at `(x, y)`, executably.
fn initial_cell_exec(w: u32, x: u32, y: u32) -> (c: CellState)
    requires
        2 <= w <= MAX_WORLD_WIDTH,
        x < w,
        y < w,
    ensures
        c == initial_cell(w as int, x as int, y as int),
{
    let frame_col = (x == 1 || x + 2 == w) && 1 <= y && y + 2 <= w;
    let frame_row = (y == 1 || y + 2 == w) && 2 <= x && x + 3 <= w;
    if frame_col || frame_row {
        CellState { concept: Concept::Sunflower, blood: 0 }
    } else {
        CellState { concept: Concept::Soil, blood: 0 }
    }
}

/// The first entry of the batch that targets `(x, y)`, if any.
pub fn find_mutation(muts: &Vec<Mutation>, x: u32, y: u32) -> (r: Option<Mutation>)
    ensures
        r == mutation_for(muts@, x as int, y as int),
{
    let n = muts.len();
    proof {
        assert(muts@.subrange(0, n as int) =~= muts@);
    }
    let mut j: usize = 0;
    while j < n
        invariant
            n == muts@.len(),
            j <= n,
            mutation_for(muts@, x as int, y as int) == mutation_for(
                muts@.subrange(j as int, n as int),
                x as int,
                y as int,
            ),
        decreases n - j,
    {
        let m = muts[j];
        if m.x == x && m.y == y {
            proof {
                assert(muts@.subrange(j as int, n as int)[0] == m);
            }
            return Some(m);
        }
        proof {
            assert(muts@.subrange(j as int, n as int).subrange(
                1,
                muts@.subrange(j as int, n as int).len() as int,
            ) =~= muts@.subrange(j as int + 1, n as int));
        }
        j = j + 1;
    }
    proof {
        assert(muts@.subrange(n as int, n as int).len() == 0);
    }
    None
}

} // verus!

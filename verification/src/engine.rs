//! The step engine: owns the two grid buffers, the parity flag selecting
//! which buffer a step writes, the pause flag, and the mutation backlog. Each
//! `execute` drains a capped batch off the backlog, marshals the step
//! parameter block, runs one whole synchronous step of the transition
//! program from the published buffer into the other buffer, flips the
//! parity, and thereby publishes the freshly completed buffer. Readers are
//! handed snapshots of the published buffer only; the buffer a step writes
//! is never the published one.

use vstd::prelude::*;
use crate::cell::{CellState, Mutation};
use crate::grid::{Grid, MAX_WORLD_WIDTH};
use crate::queue::{batch_size, MutationQueue};
use crate::rules::{initial_grid, lemma_run_steps_snoc, run_steps, step_grid};

verus! {

/// The most mutations one step will fold in; anything beyond the cap stays
/// queued for a later step.
pub const MUTATION_CAP: usize = 100;

/// The per-step parameter block handed to the transition program: the grid
/// side, the parity flag naming the buffer this step writes, and the capped
/// batch of mutations with its count.
pub struct StepParams {
    pub world_width: u32,
    pub flip: i32,
    pub mutation_count: u32,
    pub mutations: Vec<Mutation>,
}

impl StepParams {
    /// The batch never exceeds the cap and the count field names its length.
    pub open spec fn wf(self) -> bool {
        &&& self.mutations@.len() <= MUTATION_CAP
        &&& self.mutation_count == self.mutations@.len()
        &&& self.flip == 0 || self.flip == 1
    }
}

/// A snapshot of the published state: the cell array a reader may render or
/// serve, and its size in cells.
pub struct GameState {
    pub game_data: Vec<CellState>,
    pub game_size: u32,
}

/// The double-buffered step engine. The two ghost fields record its
/// provenance: the grid it was constructed with, and the batch every
/// completed step drained, oldest first.
pub struct Runner {
    pub world_width: u32,
    pub left: Grid,
    pub right: Grid,
    pub flip: i32,
    pub paused: bool,
    pub mutations: MutationQueue,
    pub genesis: Ghost<Seq<CellState>>,
    pub steps: Ghost<Seq<Seq<Mutation>>>,
}

impl Runner {
    /// Both buffers are well-formed grids of the engine's side, the parity
    /// flag names one of them, and the published buffer is exactly the
    /// construction-time grid stepped once per completed tick with the
    /// batches those ticks drained.
    pub open spec fn wf(self) -> bool {
        &&& self.left.wf()
        &&& self.right.wf()
        &&& self.left.width == self.world_width
        &&& self.right.width == self.world_width
        &&& self.flip == 0 || self.flip == 1
        &&& self.published_view() == run_steps(
            self.genesis@,
            self.world_width as int,
            self.steps@,
        )
    }

    /// Which buffer is currently published: the left one under parity 0, the
    /// right one under parity 1.
    pub open spec fn published_index(self) -> int {
        if self.flip == 0 {
            0
        } else {
            1
        }
    }

    /// Which buffer the next step writes: always the other one.
    pub open spec fn write_index(self) -> int {
        if self.flip == 0 {
            1
        } else {
            0
        }
    }

    /// The cells of the published buffer: what every reader sees, always a
    /// fully completed step, never the buffer a step is writing.
    pub open spec fn published_view(self) -> Seq<CellState> {
        if self.flip == 0 {
            self.left.cells@
        } else {
            self.right.cells@
        }
    }

    /// The cells of the buffer the next step will overwrite.
    pub open spec fn working_view(self) -> Seq<CellState> {
        if self.flip == 0 {
            self.right.cells@
        } else {
            self.left.cells@
        }
    }

    /// The pending mutations, newest first.
    pub open spec fn queued(self) -> Seq<Mutation> {
        self.mutations@
    }

    /// How many mutations the next unpaused step will drain.
    pub open spec fn next_batch_len(self) -> int {
        batch_size(MUTATION_CAP as int, self.queued().len() as int)
    }

    /// The batch the next unpaused step will fold in: the most recently
    /// enqueued mutations, at most the cap.
    pub open spec fn next_batch(self) -> Seq<Mutation> {
        self.queued().subrange(0, self.next_batch_len())
    }

    /// Construct the engine: both buffers are allocated at their final size
    /// and hold the initial garden, parity starts at 0 (the left buffer is
    /// published), the engine is unpaused and no mutation is queued.
    pub fn new(world_width: u32) -> (r: Runner)
        requires
            2 <= world_width <= MAX_WORLD_WIDTH,
        ensures
            r.wf(),
            r.world_width == world_width,
            r.flip == 0,
            !r.paused,
            r.queued().len() == 0,
            r.published_view() == initial_grid(world_width as int),
            r.working_view() == initial_grid(world_width as int),
            r.genesis@ == initial_grid(world_width as int),
            r.steps@.len() == 0,
    {
        let r = Runner {
            world_width,
            left: Grid::initial(world_width),
            right: Grid::initial(world_width),
            flip: 0,
            paused: false,
            mutations: MutationQueue::new(),
            genesis: Ghost(initial_grid(world_width as int)),
            steps: Ghost(Seq::empty()),
        };
        proof {
            assert(run_steps(r.genesis@, world_width as int, Seq::empty()) == r.genesis@);
        }
        r
    }

    /// Flip the pause flag. Pausing gates entry into a step; it changes
    /// nothing else, and the backlog keeps accumulating while paused.
    pub fn toggle_pause(&mut self)
        ensures
            final(self).paused == !old(self).paused,
            final(self).world_width == old(self).world_width,
            final(self).left == old(self).left,
            final(self).right == old(self).right,
            final(self).flip == old(self).flip,
            final(self).queued() == old(self).queued(),
            final(self).genesis == old(self).genesis,
            final(self).steps == old(self).steps,
    {
        self.paused = !self.paused;
    }

    /// Queue a request to force-set one cell's concept at the next applied
    /// step. Never blocks and never drops an entry.
    pub fn mutate(&mut self, mutation: Mutation)
        ensures
            final(self).queued() == seq![mutation] + old(self).queued(),
            final(self).world_width == old(self).world_width,
            final(self).left == old(self).left,
            final(self).right == old(self).right,
            final(self).flip == old(self).flip,
            final(self).paused == old(self).paused,
            final(self).genesis == old(self).genesis,
            final(self).steps == old(self).steps,
    {
        self.mutations.enqueue(mutation);
    }

    /// How many mutations are pending.
    pub fn pending_mutations(&self) -> (n: usize)
        ensures
            n == self.queued().len(),
    {
        self.mutations.len()
    }

    /// Whether the engine is paused.
    pub fn is_paused(&self) -> (p: bool)
        ensures
            p == self.paused,
    {
        self.paused
    }

    /// Drain the capped batch off the backlog and marshal the parameter
    /// block for the next step. Nothing but the backlog changes.
    pub fn build_step_params(&mut self) -> (p: StepParams)
        requires
            old(self).wf(),
        ensures
            final(self).wf(),
            p.wf(),
            p.world_width == old(self).world_width,
            p.flip == old(self).flip,
            p.mutations@ == old(self).next_batch(),
            final(self).queued() == old(self).queued().subrange(
                old(self).next_batch_len(),
                old(self).queued().len() as int,
            ),
            final(self).world_width == old(self).world_width,
            final(self).left == old(self).left,
            final(self).right == old(self).right,
            final(self).flip == old(self).flip,
            final(self).paused == old(self).paused,
            final(self).genesis == old(self).genesis,
            final(self).steps == old(self).steps,
    {
        let batch = self.mutations.drain_batch(MUTATION_CAP);
        let count = batch.len();
        StepParams {
            world_width: self.world_width,
            flip: self.flip,
            mutation_count: count as u32,
            mutations: batch,
        }
    }

    /// One tick of the engine. While paused this is a no-op: nothing is
    /// drained and nothing is republished. Otherwise it drains the batch of
    /// the most recently queued mutations (at most the cap, the rest staying
    /// queued), computes one whole synchronous step from the published
    /// buffer into the other buffer, flips the parity, and publishes the
    /// buffer the step just completed. The previously published buffer
    /// becomes the next step's write target.
    pub fn execute(&mut self)
        requires
            old(self).wf(),
        ensures
            final(self).wf(),
            old(self).paused ==> *final(self) == *old(self),
            !old(self).paused ==> final(self).published_view() == step_grid(
                old(self).published_view(),
                old(self).world_width as int,
                old(self).next_batch(),
            ),
            !old(self).paused ==> final(self).working_view() == old(self).published_view(),
            !old(self).paused ==> final(self).queued() == old(self).queued().subrange(
                old(self).next_batch_len(),
                old(self).queued().len() as int,
            ),
            !old(self).paused ==> final(self).flip == 1 - old(self).flip,
            !old(self).paused ==> final(self).steps@ == old(self).steps@.push(
                old(self).next_batch(),
            ),
            final(self).world_width == old(self).world_width,
            final(self).paused == old(self).paused,
            final(self).genesis == old(self).genesis,
    {
        if self.paused {
            return;
        }
        let params = self.build_step_params();
        if self.flip == 0 {
            let next = self.left.step(&params.mutations);
            self.right = Grid { width: self.world_width, cells: next };
            self.flip = 1;
        } else {
            let next = self.right.step(&params.mutations);
            self.left = Grid { width: self.world_width, cells: next };
            self.flip = 0;
        }
        self.steps = Ghost(self.steps@.push(params.mutations@));
        proof {
            lemma_run_steps_snoc(
                self.genesis@,
                self.world_width as int,
                old(self).steps@,
                params.mutations@,
            );
        }
    }

    /// A snapshot of the published buffer, for a renderer or a network
    /// responder. Snapshots are copies: a reader never holds the buffer a
    /// later step writes, so no read can observe a torn grid.
    pub fn game_state(&self) -> (gs: GameState)
        requires
            self.wf(),
        ensures
            gs.game_data@ == self.published_view(),
            gs.game_size == self.world_width * self.world_width,
    {
        proof {
            assert(self.world_width * self.world_width <= 0xFFFF * 0xFFFF) by (nonlinear_arith)
                requires
                    self.world_width <= 0xFFFF,
            ;
        }
        let size: u32 = self.world_width * self.world_width;
        let data = if self.flip == 0 {
            copy_cells(&self.left.cells)
        } else {
            copy_cells(&self.right.cells)
        };
        GameState { game_data: data, game_size: size }
    }
}

/// A plain element-by-element copy of a cell array.
fn copy_cells(v: &Vec<CellState>) -> (r: Vec<CellState>)
    ensures
        r@ == v@,
{
    let n = v.len();
    let mut r: Vec<CellState> = Vec::new();
    let mut i: usize = 0;
    while i < n
        invariant
            n == v@.len(),
            i <= n,
            r@ == v@.subrange(0, i as int),
        decreases n - i,
    {
        r.push(v[i]);
        proof {
            assert(r@ =~= v@.subrange(0, i + 1));
        }
        i = i + 1;
    }
    proof {
        assert(v@.subrange(0, n as int) =~= v@);
    }
    r
}

} // verus!

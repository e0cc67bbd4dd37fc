//! The mutation queue: an unbounded backlog of externally requested cell
//! overrides. New requests are admitted at the front, and a step drains a
//! capped batch off the front, so the most recent requests are served first
//! and anything beyond the cap stays queued for a later step.

use vstd::prelude::*;
use crate::cell::Mutation;

verus! {

/// How many entries a batch may take off the front of the queue: `len` when
/// the backlog is shorter than the cap, and `cap` otherwise.
pub open spec fn batch_size(cap: int, len: int) -> int {
    if cap < len {
        cap
    } else {
        len
    }
}

/// The backlog of pending mutations, newest first.
pub struct MutationQueue {
    items: Vec<Mutation>,
}

impl View for MutationQueue {
    type V = Seq<Mutation>;

    /// The queued mutations, newest first.
    closed spec fn view(&self) -> Seq<Mutation> {
        self.items@
    }
}

impl MutationQueue {
    /// An empty backlog.
    pub fn new() -> (q: MutationQueue)
        ensures
            q@.len() == 0,
    {
        MutationQueue { items: Vec::new() }
    }

    /// How many mutations are pending.
    pub fn len(&self) -> (n: usize)
        ensures
            n == self@.len(),
    {
        self.items.len()
    }

    /// Admit a new request at the front of the backlog. Nothing already
    /// queued is ever dropped.
    pub fn enqueue(&mut self, m: Mutation)
        ensures
            final(self)@ == seq![m] + old(self)@,
    {
        self.items.insert(0, m);
    }

    /// Remove and return up to `cap` mutations off the front of the backlog,
    /// in queue order (newest request first); the remainder stays queued.
    pub fn drain_batch(&mut self, cap: usize) -> (batch: Vec<Mutation>)
        ensures
            batch@ == old(self)@.subrange(0, batch_size(cap as int, old(self)@.len() as int)),
            final(self)@ == old(self)@.subrange(
                batch_size(cap as int, old(self)@.len() as int),
                old(self)@.len() as int,
            ),
    {
        let k: usize = if cap < self.items.len() {
            cap
        } else {
            self.items.len()
        };
        let mut batch: Vec<Mutation> = Vec::new();
        let mut j: usize = 0;
        while j < k
            invariant
                k <= self.items@.len(),
                j <= k,
                batch@ == self.items@.subrange(0, j as int),
            decreases k - j,
        {
            batch.push(self.items[j]);
            proof {
                assert(batch@ =~= self.items@.subrange(0, j + 1));
            }
            j = j + 1;
        }
        let rest = self.items.split_off(k);
        self.items = rest;
        batch
    }
}

} // verus!

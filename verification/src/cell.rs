use vstd::prelude::*;

verus! {

/// The categorical state of one garden cell.
#[derive(Clone, Copy, PartialEq, Eq, Structural, Debug)]
pub enum Concept {
    Soil,
    Sunflower,
    Rose,
    Dogwood,
}

/// One cell of the garden: a concept together with the signed `blood`
/// accumulator. The meaning of `blood` depends on the concept: a count of
/// deferred deaths for a Sunflower, a countdown toward decay for a Dogwood,
/// unused (kept at zero) for Soil.
#[derive(Clone, Copy, PartialEq, Eq, Structural, Debug)]
pub struct CellState {
    pub concept: Concept,
    pub blood: i32,
}

/// An externally requested override: force the cell at `(x, y)` to the given
/// concept (with its blood reset) at the next applied step.
#[derive(Clone, Copy, PartialEq, Eq, Structural, Debug)]
pub struct Mutation {
    pub x: u32,
    pub y: u32,
    pub concept: Concept,
}

} // verus!

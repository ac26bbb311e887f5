//! Paths over the board and what they cost to walk.

use vstd::prelude::*;
use crate::battle::MovePoints;
use crate::map::PosHex;

verus! {

/// One step of a path: the tile that it enters, and what entering costs.
#[derive(Clone, Copy, Debug, PartialEq, Eq, Structural)]
pub struct Step {
    pub to: PosHex,
    pub cost: MovePoints,
}

/// The steps of a move, in the order in which they are taken.
#[derive(Clone, Debug, PartialEq, Eq)]
pub struct Path {
    pub steps: Vec<Step>,
}

/// The sum of the costs of `steps`.
pub open spec fn total_cost(steps: Seq<Step>) -> int
    decreases steps.len(),
{
    if steps.len() == 0 {
        0
    } else {
        total_cost(steps.drop_last()) + steps.last().cost.0
    }
}

impl View for Path {
    type V = Seq<Step>;

    open spec fn view(&self) -> Seq<Step> {
        self.steps@
    }
}

impl Path {
    /// The path that takes `steps` in their order.
    pub fn new(steps: Vec<Step>) -> (path: Path)
        ensures
            path@ == steps@,
    {
        Path { steps }
    }

    /// What the whole path costs. No path is long enough for the sum to
    /// leave the range of the result.
    pub fn cost(&self) -> (cost: i128)
        ensures
            cost == total_cost(self@),
    {
        let mut cost: i128 = 0;
        let len = self.steps.len();
        for i in 0..len
            invariant
                len == self.steps@.len(),
                cost == total_cost(self.steps@.take(i as int)),
                -0x8000_0000 * i <= cost <= 0x7fff_ffff * i,
        {
            assert(self.steps@.take(i + 1).drop_last() =~= self.steps@.take(i as int));
            cost = cost + self.steps[i].cost.0 as i128;
        }
        assert(self.steps@.take(len as int) =~= self.steps@);
        cost
    }
}

} // verus!

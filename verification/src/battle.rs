//! The plain values that describe actors: identifiers, counters and weights.

use vstd::prelude::*;

verus! {

/// The handle of an actor. Nothing follows from the number itself: whether
/// the actor is on the board, fights, or belongs to anyone is recorded in
/// the component tables of the state.
#[derive(Clone, Copy, Debug, PartialEq, Eq, Hash, Structural)]
pub struct Id(pub i32);

/// One of the sides of the battle.
#[derive(Clone, Copy, Debug, PartialEq, Eq, Structural)]
pub struct PlayerId(pub i32);

/// Health points.
#[derive(Clone, Copy, Debug, PartialEq, Eq, Structural)]
pub struct Strength(pub i32);

/// Attacks left in this turn.
#[derive(Clone, Copy, Debug, PartialEq, Eq, Structural)]
pub struct Attacks(pub i32);

/// Moves left in this turn.
#[derive(Clone, Copy, Debug, PartialEq, Eq, Structural)]
pub struct Moves(pub i32);

/// Wildcards left in this turn: each stands in for a move or for an attack
/// where the question is only whether one is left.
#[derive(Clone, Copy, Debug, PartialEq, Eq, Structural)]
pub struct Jokers(pub i32);

/// What a path costs, and what an agent can spend on one move.
#[derive(Clone, Copy, Debug, PartialEq, Eq, Structural)]
pub struct MovePoints(pub i32);

/// How hard an actor is to displace, from lightest to heaviest.
#[derive(Clone, Copy, Debug, PartialEq, Eq, Structural)]
pub enum Weight {
    Normal,
    Heavy,
    Immovable,
}

impl Weight {
    /// The place of the weight in the order from lightest to heaviest.
    pub open spec fn spec_rank(self) -> int {
        match self {
            Weight::Normal => 0,
            Weight::Heavy => 1,
            Weight::Immovable => 2,
        }
    }

    pub fn rank(self) -> (rank: u8)
        ensures
            rank == self.spec_rank(),
    {
        match self {
            Weight::Normal => 0,
            Weight::Heavy => 1,
            Weight::Immovable => 2,
        }
    }
}

/// The force of a push, named by the heaviest weight that it displaces.
#[derive(Clone, Copy, Debug, PartialEq, Eq, Structural)]
pub struct PushStrength(pub Weight);

impl PushStrength {
    /// A push displaces every weight up to its own, but nothing displaces
    /// what is immovable.
    pub open spec fn spec_can_push(self, weight: Weight) -> bool {
        weight != Weight::Immovable && weight.spec_rank() <= self.0.spec_rank()
    }

    pub fn can_push(self, weight: Weight) -> (can: bool)
        ensures
            can == self.spec_can_push(weight),
    {
        weight != Weight::Immovable && weight.rank() <= self.0.rank()
    }
}

/// How a battle ended.
#[derive(Clone, Copy, Debug, PartialEq, Eq, Structural)]
pub struct BattleResult {
    pub winner_id: PlayerId,
}

} // verus!

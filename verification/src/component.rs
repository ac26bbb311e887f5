//! The components that an actor may have. Each kind is kept in a table of its
//! own, keyed by the actor's identifier.

use vstd::prelude::*;
use crate::ability::RechargeableAbility;
use crate::battle::{Attacks, Jokers, MovePoints, Moves, PlayerId, Weight};
use crate::map::{Distance, PosHex};

verus! {

/// Where an actor stands.
#[derive(Clone, Copy, Debug, PartialEq, Eq, Structural)]
pub struct Pos(pub PosHex);

/// Which player an actor obeys.
#[derive(Clone, Copy, Debug, PartialEq, Eq, Structural)]
pub struct BelongsTo(pub PlayerId);

/// What makes an actor an agent: one that moves and fights.
#[derive(Clone, Copy, Debug, PartialEq, Eq, Structural)]
pub struct Agent {
    pub moves: Moves,
    pub attacks: Attacks,
    pub jokers: Jokers,
    pub move_points: MovePoints,
    pub attack_distance: Distance,
}

/// An actor that occupies its tile.
#[derive(Clone, Copy, Debug, PartialEq, Eq, Structural)]
pub struct Blocker {
    pub weight: Weight,
}

/// An actor's health, now and at its best.
#[derive(Clone, Copy, Debug, PartialEq, Eq, Structural)]
pub struct Strength {
    pub base_strength: crate::battle::Strength,
    pub strength: crate::battle::Strength,
}

/// The abilities that an actor holds, in the order in which it got them.
#[derive(Clone, Debug, PartialEq, Eq)]
pub struct Abilities(pub Vec<RechargeableAbility>);

} // verus!

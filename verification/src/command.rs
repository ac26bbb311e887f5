//! The commands that a player or a script may issue.

use vstd::prelude::*;
use crate::ability::Ability;
use crate::battle::{Id, PlayerId};
use crate::map::PosHex;
use crate::movement::Path;

verus! {

/// Put a new actor on the tile `pos`, for `owner` if it is to obey anyone.
#[derive(Clone, Copy, Debug, PartialEq, Eq, Structural)]
pub struct Create {
    pub owner: Option<PlayerId>,
    pub pos: PosHex,
}

/// Walk the actor `id` along `path`.
#[derive(Clone, Debug, PartialEq, Eq)]
pub struct MoveTo {
    pub id: Id,
    pub path: Path,
}

/// Let `attacker_id` strike `target_id`.
#[derive(Clone, Copy, Debug, PartialEq, Eq, Structural)]
pub struct Attack {
    pub attacker_id: Id,
    pub target_id: Id,
}

/// Hand the turn to the next player.
#[derive(Clone, Copy, Debug, PartialEq, Eq, Structural)]
pub struct EndTurn;

/// Let the actor `id` use `ability` on the tile `pos`.
#[derive(Clone, Copy, Debug, PartialEq, Eq, Structural)]
pub struct UseAbility {
    pub id: Id,
    pub pos: PosHex,
    pub ability: Ability,
}

#[derive(Clone, Debug, PartialEq, Eq)]
pub enum Command {
    Create(Create),
    MoveTo(MoveTo),
    Attack(Attack),
    EndTurn(EndTurn),
    UseAbility(UseAbility),
}

} // verus!

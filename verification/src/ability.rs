//! The abilities that an actor may hold, and whether each can be used now.

use vstd::prelude::*;

verus! {

/// The kinds of ability.
#[derive(Clone, Copy, Debug, PartialEq, Eq, Structural)]
pub enum Ability {
    Knockback,
    Club,
    Jump,
    LongJump,
    Poison,
    Bomb,
    BombPush,
    BombFire,
    BombPoison,
    BombDemonic,
    Summon,
    Vanish,
    Dash,
    Rage,
    Heal,
    GreatHeal,
    Bloodlust,
    ExplodePush,
    ExplodeDamage,
    ExplodeFire,
    ExplodePoison,
}

/// Whether an ability can be used now, or for how many turns it still rests.
#[derive(Clone, Copy, Debug, PartialEq, Eq, Structural)]
pub enum Status {
    Ready,
    Cooldown(i32),
}

/// One entry of an actor's list of abilities.
#[derive(Clone, Copy, Debug, PartialEq, Eq, Structural)]
pub struct RechargeableAbility {
    pub ability: Ability,
    pub status: Status,
}

} // verus!

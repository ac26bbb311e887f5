//! What the rules are: the answer that each check owes, as a function of
//! what the state holds and of the command.
//!
//! A rule is a chain of conditions. The first one that fails names the
//! error; a command that meets them all may be carried out.

use vstd::prelude::*;
use crate::ability::{Ability, RechargeableAbility, Status};
use crate::battle::{Id, Jokers, PushStrength, Weight};
use crate::check::{Error, BOMB_THROW_DISTANCE_MAX};
use crate::command::{Attack, Command, Create, MoveTo, UseAbility};
use crate::component::Agent;
use crate::map::{spec_distance_hex, Distance, PosHex};
use crate::movement::{total_cost, Step};
use crate::state::{
    spec_agent_id_at_opt, spec_blocker_id_at_opt, spec_is_tile_blocked, StateView,
};

verus! {

/// The outcome of checking `first` and, only if it passes, `rest`.
pub open spec fn and_then(first: Result<(), Error>, rest: Result<(), Error>) -> Result<(), Error> {
    match first {
        Err(e) => Err(e),
        Ok(()) => rest,
    }
}

/// `to` is at least `min` steps from `from`.
pub open spec fn spec_check_min_distance(from: PosHex, to: PosHex, min: Distance) -> Result<
    (),
    Error,
> {
    if spec_distance_hex(from, to) < min.0 {
        Err(Error::DistanceIsTooSmall)
    } else {
        Ok(())
    }
}

/// `to` is at most `max` steps from `from`.
pub open spec fn spec_check_max_distance(from: PosHex, to: PosHex, max: Distance) -> Result<
    (),
    Error,
> {
    if spec_distance_hex(from, to) > max.0 {
        Err(Error::DistanceIsTooBig)
    } else {
        Ok(())
    }
}

/// `pos` is a tile of the board.
pub open spec fn spec_check_is_inboard(state: StateView, pos: PosHex) -> Result<(), Error> {
    if !state.map.spec_is_inboard(pos) {
        Err(Error::BadPos)
    } else {
        Ok(())
    }
}

/// `pos` is a tile of the board, and no blocker stands on it.
pub open spec fn spec_check_not_blocked_and_is_inboard(state: StateView, pos: PosHex) -> Result<
    (),
    Error,
> {
    and_then(
        spec_check_is_inboard(state, pos),
        if spec_is_tile_blocked(state, pos) {
            Err(Error::TileIsBlocked)
        } else {
            Ok(())
        },
    )
}

/// The agent component of `id`; an actor without one is no agent.
pub open spec fn spec_try_get_actor(state: StateView, id: Id) -> Result<Agent, Error> {
    if state.parts.agent.contains_key(id) {
        Ok(state.parts.agent[id])
    } else {
        Err(Error::BadActorId)
    }
}

/// The tile on which `id` stands; an actor without one cannot act.
pub open spec fn spec_try_get_pos(state: StateView, id: Id) -> Result<PosHex, Error> {
    if state.parts.pos.contains_key(id) {
        Ok(state.parts.pos[id].0)
    } else {
        Err(Error::BadActorId)
    }
}

/// `id` is an agent.
pub open spec fn spec_check_is_agent(state: StateView, id: Id) -> Result<(), Error> {
    if state.parts.agent.contains_key(id) {
        Ok(())
    } else {
        Err(Error::BadActorId)
    }
}

/// `id` obeys the player whose turn it is. An actor that obeys nobody is not
/// an actor that anyone can command.
pub open spec fn spec_check_agent_belongs_to_correct_player(state: StateView, id: Id) -> Result<
    (),
    Error,
> {
    if !state.parts.belongs_to.contains_key(id) {
        Err(Error::BadActorId)
    } else if state.parts.belongs_to[id].0 != state.player_id {
        Err(Error::CanNotCommandEnemyAgents)
    } else {
        Ok(())
    }
}

/// Nothing is left to act with: none of the `own` kind, and no joker to
/// stand in for one.
pub open spec fn spec_is_spent(own: int, jokers: Jokers) -> bool {
    own == 0 && jokers.0 == 0
}

/// `id` is an agent with an attack or a joker left.
pub open spec fn spec_check_agent_can_attack(state: StateView, id: Id) -> Result<(), Error> {
    if !state.parts.agent.contains_key(id) {
        Err(Error::BadActorId)
    } else if spec_is_spent(state.parts.agent[id].attacks.0 as int, state.parts.agent[id].jokers) {
        Err(Error::NotEnoughAttacks)
    } else {
        Ok(())
    }
}

/// `id` is an agent with a move or a joker left.
pub open spec fn spec_check_agent_can_move(state: StateView, id: Id) -> Result<(), Error> {
    if !state.parts.agent.contains_key(id) {
        Err(Error::BadActorId)
    } else if spec_is_spent(state.parts.agent[id].moves.0 as int, state.parts.agent[id].jokers) {
        Err(Error::NotEnoughMoves)
    } else {
        Ok(())
    }
}

/// The entry `i` of `list` is of the kind `ability`.
pub open spec fn holds_at(list: Seq<RechargeableAbility>, i: int, ability: Ability) -> bool {
    0 <= i < list.len() && list[i].ability == ability
}

/// The entry `i` of `list` is of the kind `ability`, and rests.
pub open spec fn rests_at(list: Seq<RechargeableAbility>, i: int, ability: Ability) -> bool {
    holds_at(list, i, ability) && list[i].status != Status::Ready
}

/// `id` holds `ability`, and every entry of that kind in its list is ready:
/// one entry that rests is enough to refuse, wherever in the list it stands.
pub open spec fn spec_check_agent_ability_ready(
    state: StateView,
    id: Id,
    ability: Ability,
) -> Result<(), Error> {
    if !state.parts.abilities.contains_key(id) {
        Err(Error::BadActorType)
    } else {
        let list = state.parts.abilities[id].0@;
        if exists|i: int| rests_at(list, i, ability) {
            Err(Error::AbilityIsNotReady)
        } else if !exists|i: int| holds_at(list, i, ability) {
            Err(Error::NoSuchAbility)
        } else {
            Ok(())
        }
    }
}

/// `id` stands on the tile `expected_pos`.
pub open spec fn spec_check_object_pos(state: StateView, id: Id, expected_pos: PosHex) -> Result<
    (),
    Error,
> {
    if !state.parts.pos.contains_key(id) {
        Err(Error::BadActorId)
    } else if state.parts.pos[id].0 != expected_pos {
        Err(Error::BadPos)
    } else {
        Ok(())
    }
}

/// What an ability asks of the tile that it is aimed at.
pub enum Target {
    /// An agent stands on it.
    Agent,
    /// An agent stands on it that a push of normal strength displaces.
    PushableAgent,
    /// An agent stands on it whose strength is below its best.
    WoundedAgent,
    /// A blocker stands on it.
    Blocker,
    /// It is a tile of the board, and no blocker stands on it.
    FreeTile,
}

/// Where an ability may be aimed.
pub enum Rule {
    /// At a tile no nearer to the actor than `min` and no farther than `max`,
    /// as far as they are given, that is as `target` says.
    Ranged { min: Option<Distance>, max: Option<Distance>, target: Target },
    /// At a tile that is as `target` says, wherever the actor is.
    Anywhere { target: Target },
    /// At the tile on which the actor stands.
    OwnTile,
    /// At the tile on which the actor stands, by an actor that is no agent.
    OwnTileOfObject,
}

/// The rule of each ability. Abilities that differ only in what they do to
/// their target share their rule.
pub open spec fn rule_of(ability: Ability) -> Rule {
    match ability {
        Ability::Knockback => Rule::Ranged {
            min: Some(Distance(1)),
            max: Some(Distance(1)),
            target: Target::PushableAgent,
        },
        Ability::Club => Rule::Ranged {
            min: Some(Distance(1)),
            max: Some(Distance(1)),
            target: Target::Agent,
        },
        Ability::Poison => Rule::Ranged {
            min: Some(Distance(1)),
            max: Some(Distance(3)),
            target: Target::Blocker,
        },
        Ability::Jump => Rule::Ranged {
            min: Some(Distance(2)),
            max: Some(Distance(2)),
            target: Target::FreeTile,
        },
        Ability::LongJump => Rule::Ranged {
            min: Some(Distance(2)),
            max: Some(Distance(3)),
            target: Target::FreeTile,
        },
        Ability::Dash => Rule::Ranged {
            min: None,
            max: Some(Distance(1)),
            target: Target::FreeTile,
        },
        Ability::Bomb
        | Ability::BombPush
        | Ability::BombFire
        | Ability::BombPoison
        | Ability::BombDemonic => Rule::Ranged {
            min: None,
            max: Some(Distance(BOMB_THROW_DISTANCE_MAX)),
            target: Target::FreeTile,
        },
        Ability::Heal | Ability::GreatHeal => Rule::Ranged {
            min: None,
            max: Some(Distance(1)),
            target: Target::WoundedAgent,
        },
        Ability::Bloodlust => Rule::Anywhere { target: Target::Agent },
        Ability::Summon
        | Ability::Rage
        | Ability::ExplodePush
        | Ability::ExplodeDamage
        | Ability::ExplodeFire
        | Ability::ExplodePoison => Rule::OwnTile,
        Ability::Vanish => Rule::OwnTileOfObject,
    }
}

/// The tile `pos` is as `target` says. A tile without the agent or blocker
/// that is asked for holds no target. An agent without a weight is no target
/// for a push, and one that is too heavy takes more strength. An agent
/// without a strength is no actor to heal, and one at or above its full
/// strength is the wrong kind of target.
pub open spec fn spec_check_target(state: StateView, pos: PosHex, target: Target) -> Result<
    (),
    Error,
> {
    match target {
        Target::Agent => match spec_agent_id_at_opt(state, pos) {
            Some(_) => Ok(()),
            None => Err(Error::NoTarget),
        },
        Target::PushableAgent => match spec_agent_id_at_opt(state, pos) {
            Some(target_id) => if !state.parts.blocker.contains_key(target_id) {
                Err(Error::BadTargetId)
            } else if !PushStrength(Weight::Normal).spec_can_push(
                state.parts.blocker[target_id].weight,
            ) {
                Err(Error::NotEnoughStrength)
            } else {
                Ok(())
            },
            None => Err(Error::NoTarget),
        },
        Target::WoundedAgent => match spec_agent_id_at_opt(state, pos) {
            Some(target_id) => if !state.parts.strength.contains_key(target_id) {
                Err(Error::BadActorId)
            } else if state.parts.strength[target_id].strength.0
                >= state.parts.strength[target_id].base_strength.0 {
                Err(Error::BadTargetType)
            } else {
                Ok(())
            },
            None => Err(Error::NoTarget),
        },
        Target::Blocker => match spec_blocker_id_at_opt(state, pos) {
            Some(_) => Ok(()),
            None => Err(Error::NoTarget),
        },
        Target::FreeTile => spec_check_not_blocked_and_is_inboard(state, pos),
    }
}

/// `pos` is no nearer to `from` than `min` and no farther than `max`, as far
/// as they are given. Too near is found before too far.
pub open spec fn spec_check_range(
    from: PosHex,
    pos: PosHex,
    min: Option<Distance>,
    max: Option<Distance>,
) -> Result<(), Error> {
    and_then(
        match min {
            Some(min) => spec_check_min_distance(from, pos, min),
            None => Ok(()),
        },
        match max {
            Some(max) => spec_check_max_distance(from, pos, max),
            None => Ok(()),
        },
    )
}

/// The actor `id` is no agent, and stands on the tile `pos`.
pub open spec fn spec_check_ability_vanish(state: StateView, id: Id, pos: PosHex) -> Result<
    (),
    Error,
> {
    if state.parts.agent.contains_key(id) {
        Err(Error::BadActorType)
    } else if !state.parts.pos.contains_key(id) {
        Err(Error::BadActorType)
    } else if state.parts.pos[id].0 != pos {
        Err(Error::BadPos)
    } else {
        Ok(())
    }
}

/// The actor `id` may aim at the tile `pos` under `rule`.
pub open spec fn spec_check_rule(state: StateView, id: Id, pos: PosHex, rule: Rule) -> Result<
    (),
    Error,
> {
    match rule {
        Rule::Ranged { min, max, target } => match spec_try_get_pos(state, id) {
            Ok(from) => and_then(
                spec_check_range(from, pos, min, max),
                spec_check_target(state, pos, target),
            ),
            Err(e) => Err(e),
        },
        Rule::Anywhere { target } => spec_check_target(state, pos, target),
        Rule::OwnTile => spec_check_object_pos(state, id, pos),
        Rule::OwnTileOfObject => spec_check_ability_vanish(state, id, pos),
    }
}

/// The actor `id` may aim `ability` at the tile `pos`. Whether it holds the
/// ability, and may act at all, is not asked here.
pub open spec fn spec_check_ability(
    state: StateView,
    id: Id,
    pos: PosHex,
    ability: Ability,
) -> Result<(), Error> {
    spec_check_rule(state, id, pos, rule_of(ability))
}

/// A new actor may be put on the tile of `command`. Nothing is asked of who
/// creates it or for whom.
pub open spec fn spec_check_command_create(state: StateView, command: Create) -> Result<
    (),
    Error,
> {
    spec_check_not_blocked_and_is_inboard(state, command.pos)
}

/// Every tile that `steps` enters is a tile of the board without a blocker.
/// The first step that enters another tile names the error.
pub open spec fn spec_check_steps(state: StateView, steps: Seq<Step>) -> Result<(), Error>
    decreases steps.len(),
{
    if steps.len() == 0 {
        Ok(())
    } else {
        and_then(
            spec_check_steps(state, steps.drop_last()),
            spec_check_not_blocked_and_is_inboard(state, steps.last().to),
        )
    }
}

/// The agent `id` has the move points for a path that costs `cost`. Jokers
/// pay for no part of a path.
pub open spec fn spec_check_move_points(state: StateView, id: Id, cost: int) -> Result<(), Error> {
    if !state.parts.agent.contains_key(id) {
        Err(Error::BadActorId)
    } else if cost > state.parts.agent[id].move_points.0 {
        Err(Error::NotEnoughMovePoints)
    } else {
        Ok(())
    }
}

/// The actor of `command` may walk its path.
pub open spec fn spec_check_command_move_to(state: StateView, command: MoveTo) -> Result<
    (),
    Error,
> {
    and_then(
        spec_check_is_agent(state, command.id),
        and_then(
            spec_check_agent_belongs_to_correct_player(state, command.id),
            and_then(
                spec_check_agent_can_move(state, command.id),
                and_then(
                    spec_check_steps(state, command.path@),
                    spec_check_move_points(state, command.id, total_cost(command.path@)),
                ),
            ),
        ),
    )
}

/// The attacker of `command` may strike its target. Nothing is too near to
/// be struck.
pub open spec fn spec_check_command_attack(state: StateView, command: Attack) -> Result<
    (),
    Error,
> {
    let parts = state.parts;
    if command.attacker_id == command.target_id {
        Err(Error::BadTargetId)
    } else if !parts.pos.contains_key(command.target_id) {
        Err(Error::BadTargetId)
    } else if !parts.agent.contains_key(command.attacker_id) {
        Err(Error::BadActorId)
    } else if !parts.pos.contains_key(command.attacker_id) {
        Err(Error::BadActorId)
    } else {
        let target_pos = parts.pos[command.target_id].0;
        let attacker_pos = parts.pos[command.attacker_id].0;
        and_then(
            spec_check_agent_belongs_to_correct_player(state, command.attacker_id),
            and_then(
                if !parts.agent.contains_key(command.target_id) {
                    Err(Error::BadTargetId)
                } else {
                    Ok(())
                },
                and_then(
                    spec_check_is_inboard(state, target_pos),
                    and_then(
                        spec_check_agent_can_attack(state, command.attacker_id),
                        spec_check_max_distance(
                            attacker_pos,
                            target_pos,
                            parts.agent[command.attacker_id].attack_distance,
                        ),
                    ),
                ),
            ),
        )
    }
}

/// The actor of `command` obeys the player whose turn it is, has an attack
/// or a joker left, holds the ability and has it ready, and aims it as the
/// ability's rule says.
pub open spec fn spec_check_command_use_ability(state: StateView, command: UseAbility) -> Result<
    (),
    Error,
> {
    and_then(
        spec_check_agent_belongs_to_correct_player(state, command.id),
        and_then(
            spec_check_agent_can_attack(state, command.id),
            and_then(
                spec_check_agent_ability_ready(state, command.id, command.ability),
                spec_check_ability(state, command.id, command.pos, command.ability),
            ),
        ),
    )
}

/// Whether `command` may be carried out in `state`: `Ok` if it may, and
/// otherwise the first reason against it. Once the battle is over nothing
/// may.
pub open spec fn spec_check(state: StateView, command: Command) -> Result<(), Error> {
    if state.battle_result is Some {
        Err(Error::BattleEnded)
    } else {
        match command {
            Command::Create(command) => spec_check_command_create(state, command),
            Command::MoveTo(command) => spec_check_command_move_to(state, command),
            Command::Attack(command) => spec_check_command_attack(state, command),
            Command::EndTurn(_) => Ok(()),
            Command::UseAbility(command) => spec_check_command_use_ability(state, command),
        }
    }
}

/// The step `i` of `steps` enters a tile that is not free, and no step before
/// it does.
pub open spec fn is_first_refused_step(state: StateView, steps: Seq<Step>, i: int) -> bool {
    &&& 0 <= i < steps.len()
    &&& spec_check_not_blocked_and_is_inboard(state, steps[i].to) is Err
    &&& forall|j: int|
        0 <= j < i ==> spec_check_not_blocked_and_is_inboard(state, (#[trigger] steps[j]).to) is Ok
}

/// The steps of a path pass exactly if each of them enters a free tile of
/// the board, and a path is refused for the reason of its first step that
/// does not.
pub proof fn lemma_check_steps_one_by_one(state: StateView, steps: Seq<Step>)
    ensures
        spec_check_steps(state, steps) is Ok <==> forall|i: int|
            0 <= i < steps.len() ==> spec_check_not_blocked_and_is_inboard(
                state,
                (#[trigger] steps[i]).to,
            ) is Ok,
        forall|i: int| #[trigger]
            is_first_refused_step(state, steps, i) ==> spec_check_steps(state, steps)
                == spec_check_not_blocked_and_is_inboard(state, steps[i].to),
    decreases steps.len(),
{
    if steps.len() > 0 {
        let front = steps.drop_last();
        lemma_check_steps_one_by_one(state, front);
        assert(forall|j: int| 0 <= j < front.len() ==> front[j] == steps[j]);
        assert forall|i: int| #[trigger] is_first_refused_step(state, steps, i) implies
            spec_check_steps(state, steps) == spec_check_not_blocked_and_is_inboard(
            state,
            steps[i].to,
        ) by {
            if i < front.len() {
                assert(is_first_refused_step(state, front, i));
            }
        }
    }
}

/// Once a step has been refused, no later step changes the answer.
pub proof fn lemma_check_steps_prefix(state: StateView, steps: Seq<Step>, k: int)
    requires
        0 <= k <= steps.len(),
        spec_check_steps(state, steps.take(k)) is Err,
    ensures
        spec_check_steps(state, steps) == spec_check_steps(state, steps.take(k)),
    decreases steps.len(),
{
    if k == steps.len() {
        assert(steps.take(k) =~= steps);
    } else {
        assert(steps.drop_last().take(k) =~= steps.take(k));
        lemma_check_steps_prefix(state, steps.drop_last(), k);
    }
}

} // verus!

//! Whether a command may be carried out.
//!
//! Each function here decides one rule, and is proved to give the answer
//! that the rule owes.

use vstd::prelude::*;
use crate::ability::{Ability, Status};
use crate::battle::{Id, Jokers, PushStrength, Weight};
use crate::command::{Attack, Command, Create, EndTurn, MoveTo, UseAbility};
use crate::component::Agent;
use crate::map::{distance_hex, Distance, PosHex};
use crate::rules::{
    holds_at, lemma_check_steps_prefix, rests_at, rule_of, spec_check, spec_check_ability,
    spec_check_ability_vanish, spec_check_agent_ability_ready,
    spec_check_agent_belongs_to_correct_player, spec_check_agent_can_attack,
    spec_check_agent_can_move, spec_check_command_attack, spec_check_command_create,
    spec_check_command_move_to, spec_check_command_use_ability, spec_check_is_agent,
    spec_check_is_inboard, spec_check_max_distance, spec_check_min_distance,
    spec_check_not_blocked_and_is_inboard, spec_check_object_pos, spec_check_rule,
    spec_check_steps, spec_check_target, spec_is_spent, spec_try_get_actor, spec_try_get_pos,
    Rule, Target,
};
use crate::state::{agent_id_at_opt, blocker_id_at_opt, is_tile_blocked, State};

verus! {

/// Why a command may not be carried out.
#[derive(Debug, Clone, Copy, PartialEq, Eq, Structural)]
pub enum Error {
    NotEnoughMovePoints,
    NotEnoughStrength,
    BadActorId,
    BadTargetId,
    BadTargetType,
    TileIsBlocked,
    DistanceIsTooBig,
    DistanceIsTooSmall,
    CanNotCommandEnemyAgents,
    NotEnoughMoves,
    NotEnoughAttacks,
    AbilityIsNotReady,
    NoSuchAbility,
    NoTarget,
    BadPos,
    BadActorType,
    BattleEnded,
}

/// How far a bomb can be thrown.
pub const BOMB_THROW_DISTANCE_MAX: i64 = 3;

/// Refuses a tile `to` that is nearer to `from` than `min`.
pub fn check_min_distance(from: PosHex, to: PosHex, min: Distance) -> (result: Result<(), Error>)
    ensures
        result == spec_check_min_distance(from, to, min),
{
    let dist = distance_hex(from, to);
    if dist.0 < min.0 {
        return Err(Error::DistanceIsTooSmall);
    }
    Ok(())
}

/// Refuses a tile `to` that is farther from `from` than `max`.
pub fn check_max_distance(from: PosHex, to: PosHex, max: Distance) -> (result: Result<(), Error>)
    ensures
        result == spec_check_max_distance(from, to, max),
{
    let dist = distance_hex(from, to);
    if dist.0 > max.0 {
        return Err(Error::DistanceIsTooBig);
    }
    Ok(())
}

/// Refuses a tile that is not on the board.
pub fn check_is_inboard(state: &State, pos: PosHex) -> (result: Result<(), Error>)
    ensures
        result == spec_check_is_inboard(state@, pos),
{
    if !state.map.is_inboard(pos) {
        return Err(Error::BadPos);
    }
    Ok(())
}

/// Refuses a tile that is not on the board, and then one on which a blocker
/// stands.
pub fn check_not_blocked_and_is_inboard(state: &State, pos: PosHex) -> (result: Result<
    (),
    Error,
>)
    ensures
        result == spec_check_not_blocked_and_is_inboard(state@, pos),
{
    check_is_inboard(state, pos)?;
    if is_tile_blocked(state, pos) {
        return Err(Error::TileIsBlocked);
    }
    Ok(())
}

/// The agent component of `id`.
pub fn try_get_actor(state: &State, id: Id) -> (result: Result<&Agent, Error>)
    ensures
        match result {
            Ok(agent) => spec_try_get_actor(state@, id) == Ok::<Agent, Error>(*agent),
            Err(e) => spec_try_get_actor(state@, id) == Err::<Agent, Error>(e),
        },
{
    match state.parts.agent.get_opt(id) {
        Some(agent) => Ok(agent),
        None => Err(Error::BadActorId),
    }
}

/// The tile on which `id` stands.
pub fn try_get_pos(state: &State, id: Id) -> (result: Result<PosHex, Error>)
    ensures
        result == spec_try_get_pos(state@, id),
{
    match state.parts.pos.get_opt(id) {
        Some(pos) => Ok(pos.0),
        None => Err(Error::BadActorId),
    }
}

/// Refuses an actor that obeys nobody, and then one that obeys another
/// player than the one whose turn it is.
pub fn check_agent_belongs_to_correct_player(state: &State, id: Id) -> (result: Result<(), Error>)
    ensures
        result == spec_check_agent_belongs_to_correct_player(state@, id),
{
    let agent_player_id = match state.parts.belongs_to.get_opt(id) {
        Some(owner) => owner.0,
        None => return Err(Error::BadActorId),
    };
    if agent_player_id != state.player_id {
        return Err(Error::CanNotCommandEnemyAgents);
    }
    Ok(())
}

/// Whether nothing is left to act with: none of the `own` kind, and no joker.
pub fn is_spent(own: i32, jokers: Jokers) -> (spent: bool)
    ensures
        spent == spec_is_spent(own as int, jokers),
{
    own == 0 && jokers.0 == 0
}

/// Refuses an actor that is no agent, and then an agent with neither an
/// attack nor a joker left.
pub fn check_agent_can_attack(state: &State, id: Id) -> (result: Result<(), Error>)
    ensures
        result == spec_check_agent_can_attack(state@, id),
{
    let agent = try_get_actor(state, id)?;
    if is_spent(agent.attacks.0, agent.jokers) {
        return Err(Error::NotEnoughAttacks);
    }
    Ok(())
}

/// Refuses an actor that is no agent, and then an agent with neither a move
/// nor a joker left.
pub fn check_agent_can_move(state: &State, id: Id) -> (result: Result<(), Error>)
    ensures
        result == spec_check_agent_can_move(state@, id),
{
    let agent = try_get_actor(state, id)?;
    if is_spent(agent.moves.0, agent.jokers) {
        return Err(Error::NotEnoughMoves);
    }
    Ok(())
}

/// Refuses an actor without a list of abilities, then one whose list holds
/// an entry of `expected_ability` that rests, then one whose list holds no
/// entry of it. The whole list is read: a ready entry does not make up for
/// one that rests.
pub fn check_agent_ability_ready(state: &State, id: Id, expected_ability: &Ability) -> (result:
    Result<(), Error>)
    ensures
        result == spec_check_agent_ability_ready(state@, id, *expected_ability),
{
    let mut found = false;
    let abilities = match state.parts.abilities.get_opt(id) {
        Some(abilities) => &abilities.0,
        None => return Err(Error::BadActorType),
    };
    let len = abilities.len();
    for i in 0..len
        invariant
            len == abilities@.len(),
            state@.parts.abilities.contains_key(id),
            abilities@ == state@.parts.abilities[id].0@,
            found <==> exists|j: int| j < i && holds_at(abilities@, j, *expected_ability),
            forall|j: int| j < i ==> !rests_at(abilities@, j, *expected_ability),
    {
        let ability = &abilities[i];
        if ability.ability == *expected_ability {
            found = true;
            assert(holds_at(abilities@, i as int, *expected_ability));
            match ability.status {
                Status::Ready => {},
                Status::Cooldown(_) => {
                    assert(rests_at(abilities@, i as int, *expected_ability));
                    return Err(Error::AbilityIsNotReady);
                },
            }
        }
    }
    if !found {
        return Err(Error::NoSuchAbility);
    }
    Ok(())
}

/// Refuses an actor without a position, and then one that does not stand on
/// `expected_pos`.
pub fn check_object_pos(state: &State, id: Id, expected_pos: PosHex) -> (result: Result<(), Error>)
    ensures
        result == spec_check_object_pos(state@, id, expected_pos),
{
    let real_pos = try_get_pos(state, id)?;
    if real_pos != expected_pos {
        return Err(Error::BadPos);
    }
    Ok(())
}

/// A knockback is aimed at a neighbouring tile, at an agent that a push of
/// normal strength displaces.
pub fn check_ability_knockback(state: &State, id: Id, pos: PosHex) -> (result: Result<(), Error>)
    ensures
        result == spec_check_ability(state@, id, pos, Ability::Knockback),
{
    let strength = PushStrength(Weight::Normal);
    let selected_pos = try_get_pos(state, id)?;
    check_min_distance(selected_pos, pos, Distance(1))?;
    check_max_distance(selected_pos, pos, Distance(1))?;
    let target_id = match agent_id_at_opt(state, pos) {
        Some(id) => id,
        None => return Err(Error::NoTarget),
    };
    let target_weight = match state.parts.blocker.get_opt(target_id) {
        Some(blocker) => blocker.weight,
        None => return Err(Error::BadTargetId),
    };
    if !strength.can_push(target_weight) {
        return Err(Error::NotEnoughStrength);
    }
    Ok(())
}

/// A jump is aimed at a free tile of the board, at least two steps away and
/// at most `max_distance`.
pub fn check_ability_jump(state: &State, id: Id, pos: PosHex, max_distance: Distance) -> (result:
    Result<(), Error>)
    ensures
        result == spec_check_rule(
            state@,
            id,
            pos,
            (Rule::Ranged {
                min: Some(Distance(2)),
                max: Some(max_distance),
                target: Target::FreeTile,
            }),
        ),
{
    let agent_pos = try_get_pos(state, id)?;
    check_min_distance(agent_pos, pos, Distance(2))?;
    check_max_distance(agent_pos, pos, max_distance)?;
    check_not_blocked_and_is_inboard(state, pos)?;
    Ok(())
}

/// A club is aimed at a neighbouring tile, at an agent.
pub fn check_ability_club(state: &State, id: Id, pos: PosHex) -> (result: Result<(), Error>)
    ensures
        result == spec_check_ability(state@, id, pos, Ability::Club),
{
    let selected_pos = try_get_pos(state, id)?;
    check_min_distance(selected_pos, pos, Distance(1))?;
    check_max_distance(selected_pos, pos, Distance(1))?;
    if agent_id_at_opt(state, pos).is_none() {
        return Err(Error::NoTarget);
    }
    Ok(())
}

/// Poison is aimed at a blocker from one to three steps away.
pub fn check_ability_poison(state: &State, id: Id, pos: PosHex) -> (result: Result<(), Error>)
    ensures
        result == spec_check_ability(state@, id, pos, Ability::Poison),
{
    let selected_pos = try_get_pos(state, id)?;
    check_min_distance(selected_pos, pos, Distance(1))?;
    check_max_distance(selected_pos, pos, Distance(3))?;
    if blocker_id_at_opt(state, pos).is_none() {
        return Err(Error::NoTarget);
    }
    Ok(())
}

/// An explosion is aimed at the tile on which the actor stands.
pub fn check_ability_explode(state: &State, id: Id, pos: PosHex) -> (result: Result<(), Error>)
    ensures
        result == spec_check_rule(state@, id, pos, Rule::OwnTile),
{
    check_object_pos(state, id, pos)
}

/// A bomb is thrown at a free tile of the board, no farther away than
/// `BOMB_THROW_DISTANCE_MAX`.
pub fn check_ability_bomb_throw(state: &State, id: Id, pos: PosHex) -> (result: Result<(), Error>)
    ensures
        result == spec_check_rule(state@, id, pos, rule_of(Ability::Bomb)),
{
    let agent_pos = try_get_pos(state, id)?;
    check_max_distance(agent_pos, pos, Distance(BOMB_THROW_DISTANCE_MAX))?;
    check_not_blocked_and_is_inboard(state, pos)?;
    Ok(())
}

/// A summoning is aimed at the tile on which the actor stands.
pub fn check_ability_summon(state: &State, id: Id, pos: PosHex) -> (result: Result<(), Error>)
    ensures
        result == spec_check_rule(state@, id, pos, Rule::OwnTile),
{
    check_object_pos(state, id, pos)
}

/// Only an actor that is no agent vanishes, and it aims at the tile on which
/// it stands.
pub fn check_ability_vanish(state: &State, id: Id, pos: PosHex) -> (result: Result<(), Error>)
    ensures
        result == spec_check_ability_vanish(state@, id, pos),
{
    if state.parts.agent.get_opt(id).is_some() {
        return Err(Error::BadActorType);
    }
    let actor_pos = match state.parts.pos.get_opt(id) {
        Some(pos) => pos.0,
        None => return Err(Error::BadActorType),
    };
    if pos != actor_pos {
        return Err(Error::BadPos);
    }
    Ok(())
}

/// A dash is aimed at a free tile of the board, at most one step away.
pub fn check_ability_dash(state: &State, id: Id, pos: PosHex) -> (result: Result<(), Error>)
    ensures
        result == spec_check_ability(state@, id, pos, Ability::Dash),
{
    let agent_pos = try_get_pos(state, id)?;
    check_max_distance(agent_pos, pos, Distance(1))?;
    check_not_blocked_and_is_inboard(state, pos)?;
    Ok(())
}

/// Rage is aimed at the tile on which the actor stands.
pub fn check_ability_rage(state: &State, id: Id, pos: PosHex) -> (result: Result<(), Error>)
    ensures
        result == spec_check_rule(state@, id, pos, Rule::OwnTile),
{
    check_object_pos(state, id, pos)
}

/// A heal is aimed at most one step away, at an agent whose strength is
/// below its full strength.
pub fn check_ability_heal(state: &State, id: Id, pos: PosHex) -> (result: Result<(), Error>)
    ensures
        result == spec_check_rule(state@, id, pos, rule_of(Ability::Heal)),
{
    let agent_pos = try_get_pos(state, id)?;
    check_max_distance(agent_pos, pos, Distance(1))?;
    let target_id = match agent_id_at_opt(state, pos) {
        Some(id) => id,
        None => return Err(Error::NoTarget),
    };
    match state.parts.strength.get_opt(target_id) {
        Some(strength) => {
            if strength.strength.0 >= strength.base_strength.0 {
                return Err(Error::BadTargetType);
            }
        },
        None => return Err(Error::BadActorId),
    }
    Ok(())
}

/// Bloodlust is aimed at an agent, wherever it stands and whomever it obeys.
pub fn check_ability_bloodlust(state: &State, _id: Id, pos: PosHex) -> (result: Result<(), Error>)
    ensures
        result == spec_check_target(state@, pos, Target::Agent),
{
    if agent_id_at_opt(state, pos).is_none() {
        return Err(Error::NoTarget);
    }
    Ok(())
}

/// A move is made by an agent of the player whose turn it is, with a move or
/// a joker left, over free tiles of the board, and costs no more than the
/// agent's move points.
pub fn check_command_move_to(state: &State, command: &MoveTo) -> (result: Result<(), Error>)
    ensures
        result == spec_check_command_move_to(state@, *command),
{
    let agent = try_get_actor(state, command.id)?;
    check_agent_belongs_to_correct_player(state, command.id)?;
    check_agent_can_move(state, command.id)?;
    let steps = &command.path.steps;
    let len = steps.len();
    for i in 0..len
        invariant
            len == steps@.len(),
            steps@ == command.path@,
            spec_check_is_agent(state@, command.id) is Ok,
            spec_check_agent_belongs_to_correct_player(state@, command.id) is Ok,
            spec_check_agent_can_move(state@, command.id) is Ok,
            spec_check_steps(state@, steps@.take(i as int)) is Ok,
    {
        let step_result = check_not_blocked_and_is_inboard(state, steps[i].to);
        proof {
            assert(steps@.take(i + 1).drop_last() =~= steps@.take(i as int));
            if step_result is Err {
                lemma_check_steps_prefix(state@, steps@, i + 1);
            }
        }
        step_result?;
    }
    assert(steps@.take(len as int) =~= steps@);
    let cost = command.path.cost();
    if cost > agent.move_points.0 as i128 {
        return Err(Error::NotEnoughMovePoints);
    }
    Ok(())
}

/// An actor is created on a free tile of the board.
pub fn check_command_create(state: &State, command: &Create) -> (result: Result<(), Error>)
    ensures
        result == spec_check_command_create(state@, *command),
{
    check_not_blocked_and_is_inboard(state, command.pos)?;
    Ok(())
}

/// An attack is made by an agent of the player whose turn it is, with an
/// attack or a joker left, on another agent that stands on the board, within
/// the attacker's attack distance.
pub fn check_command_attack(state: &State, command: &Attack) -> (result: Result<(), Error>)
    ensures
        result == spec_check_command_attack(state@, *command),
{
    if command.attacker_id == command.target_id {
        return Err(Error::BadTargetId);
    }
    let target_pos = match state.parts.pos.get_opt(command.target_id) {
        Some(pos) => pos.0,
        None => return Err(Error::BadTargetId),
    };
    let attacker_agent = try_get_actor(state, command.attacker_id)?;
    let attacker_pos = try_get_pos(state, command.attacker_id)?;
    check_agent_belongs_to_correct_player(state, command.attacker_id)?;
    if state.parts.agent.get_opt(command.target_id).is_none() {
        return Err(Error::BadTargetId);
    }
    check_is_inboard(state, target_pos)?;
    check_agent_can_attack(state, command.attacker_id)?;
    check_max_distance(attacker_pos, target_pos, attacker_agent.attack_distance)?;
    Ok(())
}

/// The turn may always be ended.
pub fn check_command_end_turn(_state: &State, _command: &EndTurn) -> (result: Result<(), Error>)
    ensures
        result == Ok::<(), Error>(()),
{
    Ok(())
}

/// An ability is used by an agent of the player whose turn it is, with an
/// attack or a joker left, that holds the ability ready and aims it as the
/// ability's rule says.
pub fn check_command_use_ability(state: &State, command: &UseAbility) -> (result: Result<
    (),
    Error,
>)
    ensures
        result == spec_check_command_use_ability(state@, *command),
{
    check_agent_belongs_to_correct_player(state, command.id)?;
    check_agent_can_attack(state, command.id)?;
    check_agent_ability_ready(state, command.id, &command.ability)?;
    match command.ability {
        Ability::Knockback => check_ability_knockback(state, command.id, command.pos),
        Ability::Club => check_ability_club(state, command.id, command.pos),
        Ability::Jump => check_ability_jump(state, command.id, command.pos, Distance(2)),
        Ability::LongJump => check_ability_jump(state, command.id, command.pos, Distance(3)),
        Ability::Poison => check_ability_poison(state, command.id, command.pos),
        Ability::Bomb
        | Ability::BombPush
        | Ability::BombFire
        | Ability::BombPoison
        | Ability::BombDemonic => check_ability_bomb_throw(state, command.id, command.pos),
        Ability::Summon => check_ability_summon(state, command.id, command.pos),
        Ability::Vanish => check_ability_vanish(state, command.id, command.pos),
        Ability::Dash => check_ability_dash(state, command.id, command.pos),
        Ability::Rage => check_ability_rage(state, command.id, command.pos),
        Ability::Heal | Ability::GreatHeal => check_ability_heal(state, command.id, command.pos),
        Ability::Bloodlust => check_ability_bloodlust(state, command.id, command.pos),
        Ability::ExplodePush
        | Ability::ExplodeDamage
        | Ability::ExplodeFire
        | Ability::ExplodePoison => check_ability_explode(state, command.id, command.pos),
    }
}

/// Decides whether `command` may be carried out in `state`, and if not, why
/// not. The state is only read.
pub fn check(state: &State, command: &Command) -> (result: Result<(), Error>)
    ensures
        result == spec_check(state@, *command),
        state@.battle_result is Some ==> result == Err::<(), Error>(Error::BattleEnded),
{
    if state.battle_result.is_some() {
        return Err(Error::BattleEnded);
    }
    match command {
        Command::Create(command) => check_command_create(state, command),
        Command::MoveTo(command) => check_command_move_to(state, command),
        Command::Attack(command) => check_command_attack(state, command),
        Command::EndTurn(command) => check_command_end_turn(state, command),
        Command::UseAbility(command) => check_command_use_ability(state, command),
    }
}

} // verus!

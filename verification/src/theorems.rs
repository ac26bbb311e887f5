//! What holds of every state and every command, proved from the rules.

use vstd::prelude::*;
use crate::ability::Ability;
use crate::battle::Id;
use crate::check::Error;
use crate::rules::{
    rule_of, spec_check, spec_check_agent_ability_ready,
    spec_check_agent_belongs_to_correct_player, spec_check_agent_can_attack, spec_check_target,
    Rule,
};
use crate::command::{Command, UseAbility};
use crate::component::Strength;
use crate::map::spec_distance_hex;
use crate::state::{spec_agent_id_at_opt, PartsView, State, StateView};

verus! {

/// The actor that `command` has act, if it has any do so.
pub open spec fn actor_of(command: Command) -> Option<Id> {
    match command {
        Command::Create(_) => None,
        Command::MoveTo(command) => Some(command.id),
        Command::Attack(command) => Some(command.attacker_id),
        Command::EndTurn(_) => None,
        Command::UseAbility(command) => Some(command.id),
    }
}

/// `id` obeys a player, and not the one whose turn it is.
pub open spec fn obeys_another_player(state: StateView, id: Id) -> bool {
    state.parts.belongs_to.contains_key(id) && state.parts.belongs_to[id].0 != state.player_id
}

/// The actor of `command` obeys the player whose turn it is, has an attack
/// or a joker left, and holds the ability ready: all that is asked before
/// the ability's own rule.
pub open spec fn may_use(state: StateView, command: UseAbility) -> bool {
    &&& state.battle_result is None
    &&& spec_check_agent_belongs_to_correct_player(state, command.id) is Ok
    &&& spec_check_agent_can_attack(state, command.id) is Ok
    &&& spec_check_agent_ability_ready(state, command.id, command.ability) is Ok
}

/// `state`, but with `strength` as the strength of `id`.
pub open spec fn with_strength(state: StateView, id: Id, strength: Strength) -> StateView {
    StateView {
        parts: PartsView { strength: state.parts.strength.insert(id, strength), ..state.parts },
        ..state
    }
}

/// The answer is a function of what the state holds and of the command: two
/// states that hold the same, however each was built, get the same answer.
pub proof fn lemma_check_is_deterministic(first: State, second: State, command: Command)
    requires
        first@ == second@,
    ensures
        spec_check(first@, command) == spec_check(second@, command),
{
}

/// Once the battle has a result, every command is refused for that reason,
/// whatever else would hold of it.
pub proof fn lemma_battle_ended(state: StateView, command: Command)
    requires
        state.battle_result is Some,
    ensures
        spec_check(state, command) == Err::<(), Error>(Error::BattleEnded),
{
}

/// A command to an actor that obeys another player is refused for that
/// reason, whatever else the command holds. Reasons that are looked for
/// before the owner come first: that the battle is over, that the actor of a
/// move is no agent, that an attacker strikes itself or a target that is not
/// on the board, or that the attacker is no agent or not on the board.
pub proof fn lemma_enemy_agents_are_not_commanded(state: StateView, command: Command)
    requires
        state.battle_result is None,
        actor_of(command) matches Some(id) && obeys_another_player(state, id),
        command matches Command::MoveTo(command) ==> state.parts.agent.contains_key(command.id),
        command matches Command::Attack(command) ==> {
            &&& command.attacker_id != command.target_id
            &&& state.parts.pos.contains_key(command.target_id)
            &&& state.parts.agent.contains_key(command.attacker_id)
            &&& state.parts.pos.contains_key(command.attacker_id)
        },
    ensures
        spec_check(state, command) == Err::<(), Error>(Error::CanNotCommandEnemyAgents),
{
}

/// Every range holds some distance: where a rule has both bounds, the lower
/// is not above the upper, so that no tile is too near and too far at once.
pub proof fn lemma_ranges_are_not_empty(ability: Ability)
    ensures
        rule_of(ability) matches Rule::Ranged { min: Some(min), max: Some(max), .. } ==> 0 <= min.0
            <= max.0,
{
}

/// For an ability with a range, the distance from the actor to the aimed-at
/// tile decides in this way: below the lower bound the tile is too near,
/// above the upper bound it is too far, and in between the distance is no
/// reason to refuse: the answer is then what the ability asks of the tile.
pub proof fn lemma_distance_decides(state: StateView, command: UseAbility)
    requires
        may_use(state, command),
        state.parts.pos.contains_key(command.id),
        rule_of(command.ability) is Ranged,
    ensures
        ({
            let distance = spec_distance_hex(state.parts.pos[command.id].0, command.pos);
            let answer = spec_check(state, Command::UseAbility(command));
            let too_near = rule_of(command.ability)->min matches Some(min) && distance < min.0;
            let too_far = rule_of(command.ability)->max matches Some(max) && distance > max.0;
            &&& too_near ==> answer == Err::<(), Error>(Error::DistanceIsTooSmall)
            &&& too_far ==> answer == Err::<(), Error>(Error::DistanceIsTooBig)
            &&& !too_near && !too_far ==> {
                &&& answer == spec_check_target(
                    state,
                    command.pos,
                    rule_of(command.ability)->Ranged_target,
                )
                &&& answer != Err::<(), Error>(Error::DistanceIsTooSmall)
                &&& answer != Err::<(), Error>(Error::DistanceIsTooBig)
            }
        }),
{
}

/// Healing an agent at its full strength is refused, and the same agent one
/// point below its full strength may be healed, where nothing else stands
/// against the command.
pub proof fn lemma_heal_at_full_strength(state: StateView, command: UseAbility, target_id: Id)
    requires
        may_use(state, command),
        command.ability == Ability::Heal || command.ability == Ability::GreatHeal,
        state.parts.pos.contains_key(command.id),
        spec_distance_hex(state.parts.pos[command.id].0, command.pos) <= 1,
        spec_agent_id_at_opt(state, command.pos) == Some(target_id),
        state.parts.strength.contains_key(target_id),
        state.parts.strength[target_id].strength == state.parts.strength[target_id].base_strength,
        state.parts.strength[target_id].base_strength.0 > i32::MIN,
    ensures
        spec_check(state, Command::UseAbility(command)) == Err::<(), Error>(Error::BadTargetType),
        ({
            let full = state.parts.strength[target_id];
            let wounded = Strength {
                strength: crate::battle::Strength((full.base_strength.0 - 1) as i32),
                ..full
            };
            spec_check(with_strength(state, target_id, wounded), Command::UseAbility(command))
                == Ok::<(), Error>(())
        }),
{
}

/// Whatever the strength of its target, a heal may be used on it exactly if
/// the strength is below the target's full strength.
pub proof fn lemma_heal_needs_a_wound(state: StateView, command: UseAbility, target_id: Id)
    requires
        may_use(state, command),
        command.ability == Ability::Heal || command.ability == Ability::GreatHeal,
        state.parts.pos.contains_key(command.id),
        spec_distance_hex(state.parts.pos[command.id].0, command.pos) <= 1,
        spec_agent_id_at_opt(state, command.pos) == Some(target_id),
        state.parts.strength.contains_key(target_id),
    ensures
        ({
            let target = state.parts.strength[target_id];
            spec_check(state, Command::UseAbility(command)) == (if target.strength.0
                < target.base_strength.0 {
                Ok::<(), Error>(())
            } else {
                Err::<(), Error>(Error::BadTargetType)
            })
        }),
{
}

} // verus!

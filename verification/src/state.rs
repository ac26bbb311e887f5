//! The snapshot of a battle that commands are judged against, and the
//! questions that the rules ask of it.

use vstd::prelude::*;
use crate::battle::{BattleResult, Id, PlayerId};
use crate::component::{Abilities, Agent, BelongsTo, Blocker, Pos, Strength};
use crate::map::{HexMap, PosHex};
use crate::table::Table;

verus! {

/// The component tables. An actor is whatever its entries make of it: an
/// agent if it has an entry in `agent`, on the board if it has one in `pos`.
#[derive(Clone, Debug, PartialEq, Eq)]
pub struct Parts {
    pub pos: Table<Pos>,
    pub belongs_to: Table<BelongsTo>,
    pub agent: Table<Agent>,
    pub abilities: Table<Abilities>,
    pub blocker: Table<Blocker>,
    pub strength: Table<Strength>,
}

/// What the component tables hold.
pub struct PartsView {
    pub pos: Map<Id, Pos>,
    pub belongs_to: Map<Id, BelongsTo>,
    pub agent: Map<Id, Agent>,
    pub abilities: Map<Id, Abilities>,
    pub blocker: Map<Id, Blocker>,
    pub strength: Map<Id, Strength>,
}

impl View for Parts {
    type V = PartsView;

    open spec fn view(&self) -> PartsView {
        PartsView {
            pos: self.pos@,
            belongs_to: self.belongs_to@,
            agent: self.agent@,
            abilities: self.abilities@,
            blocker: self.blocker@,
            strength: self.strength@,
        }
    }
}

impl PartsView {
    /// Tables without any actor.
    pub open spec fn empty() -> PartsView {
        PartsView {
            pos: Map::empty(),
            belongs_to: Map::empty(),
            agent: Map::empty(),
            abilities: Map::empty(),
            blocker: Map::empty(),
            strength: Map::empty(),
        }
    }
}

impl Parts {
    /// Tables without any actor.
    pub fn new() -> (parts: Parts)
        ensures
            parts@ == PartsView::empty(),
    {
        Parts {
            pos: Table::new(),
            belongs_to: Table::new(),
            agent: Table::new(),
            abilities: Table::new(),
            blocker: Table::new(),
            strength: Table::new(),
        }
    }
}

/// A battle at one moment: whose turn it is, whether it is over, the board
/// and the actors.
#[derive(Clone, Debug, PartialEq, Eq)]
pub struct State {
    pub player_id: PlayerId,
    pub battle_result: Option<BattleResult>,
    pub map: HexMap,
    pub parts: Parts,
}

/// What a snapshot holds.
pub struct StateView {
    pub player_id: PlayerId,
    pub battle_result: Option<BattleResult>,
    pub map: HexMap,
    pub parts: PartsView,
}

impl View for State {
    type V = StateView;

    open spec fn view(&self) -> StateView {
        StateView {
            player_id: self.player_id,
            battle_result: self.battle_result,
            map: self.map,
            parts: self.parts@,
        }
    }
}

impl State {
    /// A battle that has not ended, on the board `map`, with no actors yet,
    /// in which it is the turn of `player_id`.
    pub fn new(player_id: PlayerId, map: HexMap) -> (state: State)
        ensures
            state@.player_id == player_id,
            state@.battle_result is None,
            state@.map == map,
            state@.parts == PartsView::empty(),
    {
        State { player_id, battle_result: None, map, parts: Parts::new() }
    }
}

/// `id` has a position, and it is `pos`.
pub open spec fn stands_at(positions: Map<Id, Pos>, id: Id, pos: PosHex) -> bool {
    positions.contains_key(id) && positions[id].0 == pos
}

/// `id` is the one of `members` on the tile `pos` with the least number.
pub open spec fn is_least_at(
    members: Set<Id>,
    positions: Map<Id, Pos>,
    pos: PosHex,
    id: Id,
) -> bool {
    &&& members.contains(id)
    &&& stands_at(positions, id, pos)
    &&& forall|other: Id|
        members.contains(other) && stands_at(positions, other, pos) ==> id.0 <= other.0
}

/// The one of `members` that stands on the tile `pos`; where several do, the
/// one with the least number; `None` where none does.
pub open spec fn least_at(members: Set<Id>, positions: Map<Id, Pos>, pos: PosHex) -> Option<Id> {
    if exists|id: Id| members.contains(id) && stands_at(positions, id, pos) {
        Some(choose|id: Id| is_least_at(members, positions, pos, id))
    } else {
        None
    }
}

/// If `id` is the one of `members` with the least number on `pos`, it is the
/// one that `least_at` names.
pub proof fn lemma_least_at_is(members: Set<Id>, positions: Map<Id, Pos>, pos: PosHex, id: Id)
    requires
        is_least_at(members, positions, pos, id),
    ensures
        least_at(members, positions, pos) == Some(id),
{
    let chosen = choose|id: Id| is_least_at(members, positions, pos, id);
    assert(is_least_at(members, positions, pos, chosen));
    assert(chosen.0 == id.0);
}

/// Where one of `members` stands on `pos`, one of them does so with the
/// least number: the numbers are bounded below.
proof fn lemma_some_is_least_at(members: Set<Id>, positions: Map<Id, Pos>, pos: PosHex, id: Id)
    requires
        members.contains(id),
        stands_at(positions, id, pos),
    ensures
        exists|least: Id| is_least_at(members, positions, pos, least),
    decreases id.0 - i32::MIN,
{
    if !is_least_at(members, positions, pos, id) {
        let other = choose|other: Id|
            members.contains(other) && stands_at(positions, other, pos) && other.0 < id.0;
        lemma_some_is_least_at(members, positions, pos, other);
    }
}

/// What `least_at` names is one of `members`, stands on `pos`, and has the
/// least number of those that do; it names none exactly where none of
/// them stands on `pos`.
pub proof fn lemma_least_at(members: Set<Id>, positions: Map<Id, Pos>, pos: PosHex)
    ensures
        match least_at(members, positions, pos) {
            Some(id) => is_least_at(members, positions, pos, id),
            None => forall|id: Id| members.contains(id) ==> !stands_at(positions, id, pos),
        },
{
    if exists|id: Id| members.contains(id) && stands_at(positions, id, pos) {
        let id = choose|id: Id| members.contains(id) && stands_at(positions, id, pos);
        lemma_some_is_least_at(members, positions, pos, id);
    }
}

/// The agent on the tile `pos`.
pub open spec fn spec_agent_id_at_opt(state: StateView, pos: PosHex) -> Option<Id> {
    least_at(state.parts.agent.dom(), state.parts.pos, pos)
}

/// The blocker on the tile `pos`.
pub open spec fn spec_blocker_id_at_opt(state: StateView, pos: PosHex) -> Option<Id> {
    least_at(state.parts.blocker.dom(), state.parts.pos, pos)
}

/// Some blocker stands on the tile `pos`.
pub open spec fn spec_is_tile_blocked(state: StateView, pos: PosHex) -> bool {
    exists|id: Id| state.parts.blocker.contains_key(id) && stands_at(state.parts.pos, id, pos)
}

/// Among the actors `ids`, the one on the tile `pos` with the least number.
fn least_id_at(ids: &Vec<Id>, positions: &Table<Pos>, pos: PosHex) -> (found: Option<Id>)
    ensures
        found == least_at(ids@.to_set(), positions@, pos),
{
    let mut best: Option<Id> = None;
    let len = ids.len();
    for i in 0..len
        invariant
            len == ids@.len(),
            match best {
                Some(b) => {
                    &&& ids@.contains(b)
                    &&& stands_at(positions@, b, pos)
                    &&& forall|j: int|
                        0 <= j < i && stands_at(positions@, #[trigger] ids@[j], pos) ==> b.0
                            <= ids@[j].0
                },
                None => forall|j: int|
                    0 <= j < i ==> !stands_at(positions@, #[trigger] ids@[j], pos),
            },
    {
        let id = ids[i];
        let here = match positions.get_opt(id) {
            Some(p) => p.0 == pos,
            None => false,
        };
        if here {
            best = match best {
                Some(b) => if id.0 < b.0 {
                    Some(id)
                } else {
                    Some(b)
                },
                None => Some(id),
            };
        }
    }
    proof {
        match best {
            Some(b) => {
                assert forall|other: Id|
                    ids@.to_set().contains(other) && stands_at(positions@, other, pos) implies b.0
                    <= other.0 by {
                    let j = choose|j: int| 0 <= j < ids@.len() && ids@[j] == other;
                    assert(stands_at(positions@, ids@[j], pos));
                }
                lemma_least_at_is(ids@.to_set(), positions@, pos, b);
            },
            None => {
                assert forall|other: Id| ids@.to_set().contains(other) implies !stands_at(
                    positions@,
                    other,
                    pos,
                ) by {
                    let j = choose|j: int| 0 <= j < ids@.len() && ids@[j] == other;
                    assert(!stands_at(positions@, ids@[j], pos));
                }
            },
        }
    }
    best
}

/// The agent on the tile `pos`. Where several agents share the tile, the one
/// with the least number answers for it.
pub fn agent_id_at_opt(state: &State, pos: PosHex) -> (found: Option<Id>)
    ensures
        found == spec_agent_id_at_opt(state@, pos),
{
    let ids = state.parts.agent.ids();
    assert(ids@.to_set() =~= state@.parts.agent.dom());
    least_id_at(&ids, &state.parts.pos, pos)
}

/// The blocker on the tile `pos`. Where several blockers share the tile, the
/// one with the least number answers for it.
pub fn blocker_id_at_opt(state: &State, pos: PosHex) -> (found: Option<Id>)
    ensures
        found == spec_blocker_id_at_opt(state@, pos),
{
    let ids = state.parts.blocker.ids();
    assert(ids@.to_set() =~= state@.parts.blocker.dom());
    least_id_at(&ids, &state.parts.pos, pos)
}

/// Whether a blocker stands on the tile `pos`.
pub fn is_tile_blocked(state: &State, pos: PosHex) -> (blocked: bool)
    ensures
        blocked == spec_is_tile_blocked(state@, pos),
{
    blocker_id_at_opt(state, pos).is_some()
}

} // verus!

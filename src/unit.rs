//! Actors of the telemetry stream and their canonical identities.

use std::collections::HashMap;
use vstd::prelude::*;

use crate::armory::{character_id_by_uid, Armory, Character};

verus! {

broadcast use vstd::std_specs::hash::group_hash_axioms;

/// How many owner links the resolver follows before it gives up on a chain.
pub const MAX_OWNER_HOPS: usize = 8;

/// An actor reference as it arrives on the wire.
#[derive(Clone, Copy, Debug, PartialEq, Eq, Structural)]
pub struct DtoUnit {
    pub is_player: bool,
    pub unit_id: u64,
}

/// A player, by the directory's character id.
#[derive(Clone, Copy, Debug, PartialEq, Eq, Structural)]
pub struct Player {
    pub character_id: u32,
}

/// A creature: its instance id, its template id and, for a summon, its owner's id.
#[derive(Clone, Copy, Debug, PartialEq, Eq, Structural)]
pub struct Creature {
    pub creature_id: u64,
    pub entry: u32,
    pub owner: Option<u64>,
}

/// The actor an event concerns.
#[derive(Clone, Copy, Debug, PartialEq, Eq, Structural)]
pub enum Unit {
    Player(Player),
    Creature(Creature),
}

/// What two actors are compared by: a known character, or a raw unit id.
#[derive(Clone, Copy, Debug, PartialEq, Eq, Structural)]
pub enum Identity {
    Character(u32),
    Guid(u64),
}

/// The unit id reached from `id` after `n` steps along the summon map; a step
/// from an id that the map lacks stays put.
pub open spec fn follow_owners(summons: Map<u64, u64>, id: u64, n: nat) -> u64
    decreases n,
{
    if n == 0 {
        id
    } else {
        let prev = follow_owners(summons, id, (n - 1) as nat);
        if summons.contains_key(prev) {
            summons[prev]
        } else {
            prev
        }
    }
}

/// The controller at the end of `id`'s owner chain; `id` itself where the chain
/// does not end within the bound (a cycle or an overlong chain).
pub open spec fn chain_end(summons: Map<u64, u64>, id: u64) -> u64 {
    let last = follow_owners(summons, id, MAX_OWNER_HOPS as nat);
    if summons.contains_key(last) {
        id
    } else {
        last
    }
}

/// The identity of the creature `id`: its controller, as a character where the
/// directory knows the controller's unit id.
pub open spec fn creature_identity(summons: Map<u64, u64>, chars: Seq<Character>, id: u64) -> Identity {
    let end = chain_end(summons, id);
    if end != id {
        match character_id_by_uid(chars, end) {
            Some(c) => Identity::Character(c),
            None => Identity::Guid(end),
        }
    } else {
        Identity::Guid(id)
    }
}

/// The canonical identity of a decoded unit.
pub open spec fn identity_of(u: Unit, summons: Map<u64, u64>, chars: Seq<Character>) -> Identity {
    match u {
        Unit::Player(p) => Identity::Character(p.character_id),
        Unit::Creature(c) => creature_identity(summons, chars, c.creature_id),
    }
}

/// The canonical identity of a wire unit; none for a player that the directory lacks.
pub open spec fn dto_identity(d: DtoUnit, summons: Map<u64, u64>, chars: Seq<Character>) -> Option<
    Identity,
> {
    if d.is_player {
        match character_id_by_uid(chars, d.unit_id) {
            Some(c) => Some(Identity::Character(c)),
            None => None,
        }
    } else {
        Some(creature_identity(summons, chars, d.unit_id))
    }
}

/// Follows the summon chain of `id` to its controller.
pub fn owner_chain_end(summons: &HashMap<u64, u64>, id: u64) -> (r: u64)
    ensures
        r == chain_end(summons@, id),
{
    let mut cur = id;
    let mut i: usize = 0;
    while i < MAX_OWNER_HOPS
        invariant
            i <= MAX_OWNER_HOPS,
            cur == follow_owners(summons@, id, i as nat),
        decreases MAX_OWNER_HOPS - i,
    {
        match summons.get(&cur) {
            Some(owner) => {
                cur = *owner;
            },
            None => {},
        }
        i += 1;
    }
    if summons.contains_key(&cur) {
        id
    } else {
        cur
    }
}

fn creature_identity_exec(summons: &HashMap<u64, u64>, directory: &Armory, id: u64) -> (r: Identity)
    ensures
        r == creature_identity(summons@, directory.characters@, id),
{
    let end = owner_chain_end(summons, id);
    if end != id {
        match directory.lookup_character(end) {
            Some(c) => Identity::Character(c),
            None => Identity::Guid(end),
        }
    } else {
        Identity::Guid(id)
    }
}

/// Resolves `unit` to the identity it is matched by.
pub fn resolve(unit: &Unit, summons: &HashMap<u64, u64>, directory: &Armory) -> (r: Identity)
    ensures
        r == identity_of(*unit, summons@, directory.characters@),
{
    match unit {
        Unit::Player(p) => Identity::Character(p.character_id),
        Unit::Creature(c) => creature_identity_exec(summons, directory, c.creature_id),
    }
}

/// The template id that a creature's unit id carries in bits 24 to 47.
pub open spec fn entry_of(unit_id: u64) -> u32 {
    ((unit_id as nat / 0x100_0000) % 0x100_0000) as u32
}

/// The unit that a wire reference names; none for a player that the directory
/// does not know. A creature's owner is what the summon map records.
pub open spec fn unit_of(d: DtoUnit, summons: Map<u64, u64>, chars: Seq<Character>) -> Option<Unit> {
    if d.is_player {
        match character_id_by_uid(chars, d.unit_id) {
            Some(c) => Some(Unit::Player(Player { character_id: c })),
            None => None,
        }
    } else {
        Some(
            Unit::Creature(
                Creature {
                    creature_id: d.unit_id,
                    entry: entry_of(d.unit_id),
                    owner: if summons.contains_key(d.unit_id) {
                        Some(summons[d.unit_id])
                    } else {
                        None
                    },
                },
            ),
        )
    }
}

impl DtoUnit {
    /// Resolves a wire unit to the identity it is matched by; none for a player
    /// that the directory does not know.
    pub fn resolve(&self, summons: &HashMap<u64, u64>, directory: &Armory) -> (r: Option<Identity>)
        ensures
            r == dto_identity(*self, summons@, directory.characters@),
    {
        if self.is_player {
            match directory.lookup_character(self.unit_id) {
                Some(c) => Some(Identity::Character(c)),
                None => None,
            }
        } else {
            Some(creature_identity_exec(summons, directory, self.unit_id))
        }
    }

    /// The unit that this wire reference names; none for a player that the
    /// directory does not know. A creature's owner is what the summon map records.
    pub fn to_unit(&self, summons: &HashMap<u64, u64>, directory: &Armory) -> (r: Option<Unit>)
        ensures
            r == unit_of(*self, summons@, directory.characters@),
    {
        if self.is_player {
            match directory.lookup_character(self.unit_id) {
                Some(c) => Some(Unit::Player(Player { character_id: c })),
                None => None,
            }
        } else {
            let id = self.unit_id;
            let entry = ((id >> 24u64) & 0xFF_FFFFu64) as u32;
            assert(((id >> 24u64) & 0xFF_FFFFu64) == (id / 0x100_0000) % 0x100_0000) by (bit_vector);
            let owner = match summons.get(&id) {
                Some(o) => Some(*o),
                None => None,
            };
            Some(Unit::Creature(Creature { creature_id: id, entry, owner }))
        }
    }
}

} // verus!

//! Decoded gameplay events.

use vstd::prelude::*;

use crate::unit::Unit;

verus! {

/// How a spell or swing landed.
#[derive(Clone, Copy, Debug, PartialEq, Eq, Structural)]
pub enum HitType {
    Hit,
    Crit,
    Miss,
    Glancing,
    Crushing,
    FullAbsorb,
    PartialAbsorb,
    FullBlock,
    PartialBlock,
    FullResist,
    PartialResist,
    Dodge,
    Parry,
    Deflect,
    Evade,
    Immune,
    Reflect,
}

/// An aura put on the event's subject.
#[derive(Clone, Copy, Debug, PartialEq, Eq, Structural)]
pub struct AuraApplication {
    pub caster: Unit,
    pub spell_id: u32,
    pub stack_amount: u32,
}

/// A spell cast by the event's subject, with the ids of the events it caused.
#[derive(Clone, Debug)]
pub struct SpellCast {
    pub victim: Option<Unit>,
    pub hit_type: HitType,
    pub spell_id: Option<u32>,
    pub damage: Vec<u32>,
    pub heal: Vec<u32>,
    pub threat: Vec<u32>,
}

/// An item picked up by a unit.
#[derive(Clone, Copy, Debug, PartialEq, Eq, Structural)]
pub struct Loot {
    pub unit: u64,
    pub item_id: u32,
}

/// What happened; every kind of event the stream carries.
#[derive(Clone, Debug)]
pub enum EventType {
    AuraApplication(AuraApplication),
    SpellCast(SpellCast),
    Loot(Loot),
}

/// One reconstructed event: its sequence number, its server time, whom it
/// concerns and what happened.
#[derive(Clone, Debug)]
pub struct Event {
    pub id: u32,
    pub timestamp: u64,
    pub subject: Unit,
    pub event: EventType,
}

/// Two spell casts that hold the same values.
pub open spec fn same_spell_cast(a: SpellCast, b: SpellCast) -> bool {
    &&& a.victim == b.victim
    &&& a.hit_type == b.hit_type
    &&& a.spell_id == b.spell_id
    &&& a.damage@ == b.damage@
    &&& a.heal@ == b.heal@
    &&& a.threat@ == b.threat@
}

/// Two events that hold the same values.
pub open spec fn same_event(a: Event, b: Event) -> bool {
    &&& a.id == b.id
    &&& a.timestamp == b.timestamp
    &&& a.subject == b.subject
    &&& match (a.event, b.event) {
        (EventType::AuraApplication(x), EventType::AuraApplication(y)) => x == y,
        (EventType::SpellCast(x), EventType::SpellCast(y)) => same_spell_cast(x, y),
        (EventType::Loot(x), EventType::Loot(y)) => x == y,
        _ => false,
    }
}

fn copy_ids(v: &Vec<u32>) -> (r: Vec<u32>)
    ensures
        r@ == v@,
{
    let mut r: Vec<u32> = Vec::new();
    let mut i: usize = 0;
    while i < v.len()
        invariant
            i <= v@.len(),
            r@ == v@.subrange(0, i as int),
        decreases v.len() - i,
    {
        r.push(v[i]);
        i += 1;
    }
    assert(r@ =~= v@);
    r
}

impl Event {
    /// A copy of this event.
    pub fn duplicate(&self) -> (r: Event)
        ensures
            same_event(r, *self),
    {
        let event = match &self.event {
            EventType::AuraApplication(a) => EventType::AuraApplication(*a),
            EventType::SpellCast(s) => EventType::SpellCast(
                SpellCast {
                    victim: s.victim,
                    hit_type: s.hit_type,
                    spell_id: s.spell_id,
                    damage: copy_ids(&s.damage),
                    heal: copy_ids(&s.heal),
                    threat: copy_ids(&s.threat),
                },
            ),
            EventType::Loot(l) => EventType::Loot(*l),
        };
        Event { id: self.id, timestamp: self.timestamp, subject: self.subject, event }
    }
}

} // verus!

//! One connection's sequential state: its event window, its summon map and the
//! removals still waiting for corroborating events.

use std::collections::HashMap;
use vstd::prelude::*;

use crate::armory::{character_id_by_uid, Armory, Character};
use crate::dispel::{is_decided, matched_ids, try_correlate_removal, UnAura};
use crate::event::{AuraApplication, Event, EventType, Loot};
use crate::payload::{decode, decoded, AuraApplicationRecord, DecodeError, Message};
use crate::unit::{unit_of, Player, Unit};
use crate::window::{unexpired, EventWindow};

verus! {

broadcast use vstd::std_specs::hash::group_hash_axioms;

/// A removal that arrived as event `id` at `timestamp` and is not decided yet.
#[derive(Clone, Copy, Debug, PartialEq, Eq, Structural)]
pub struct PendingRemoval {
    pub id: u32,
    pub timestamp: u64,
    pub request: UnAura,
}

/// How a pending removal ended.
#[derive(Clone, Debug, PartialEq, Eq)]
pub enum Resolution {
    /// The removal `id` removes the applications with these ids.
    Correlated(u32, Vec<u32>),
    /// No application was found for the removal `id` within the grace period.
    Abandoned(u32),
}

/// What presenting a pending removal again gives.
pub enum Settlement {
    Correlated(u32, Seq<u32>),
    Abandoned(u32),
    Waiting,
}

/// The settlement that a resolution stands for.
pub open spec fn settlement_of(r: Resolution) -> Settlement {
    match r {
        Resolution::Correlated(id, ids) => Settlement::Correlated(id, ids@),
        Resolution::Abandoned(id) => Settlement::Abandoned(id),
    }
}

/// Presenting `p` again once an event at `next_timestamp` arrived: correlated
/// where decided, abandoned where the grace period has passed without a match,
/// waiting otherwise.
pub open spec fn settle(
    p: PendingRemoval,
    window: Seq<Event>,
    next_timestamp: u64,
    summons: Map<u64, u64>,
    chars: Seq<Character>,
    grace_period: u64,
) -> Settlement {
    if is_decided(p.request, window, p.timestamp, next_timestamp, summons, chars, grace_period) {
        Settlement::Correlated(p.id, matched_ids(p.request, window, summons, chars))
    } else if next_timestamp - p.timestamp > grace_period {
        Settlement::Abandoned(p.id)
    } else {
        Settlement::Waiting
    }
}

/// Settles `p`: the correlation, a give-up, or none while it keeps waiting.
pub fn settle_removal(
    p: &PendingRemoval,
    window: &[Event],
    next_timestamp: u64,
    directory: &Armory,
    summons: &HashMap<u64, u64>,
    grace_period: u64,
) -> (r: Option<Resolution>)
    ensures
        match settle(*p, window@, next_timestamp, summons@, directory.characters@, grace_period) {
            Settlement::Waiting => r is None,
            s => r matches Some(res) && settlement_of(res) == s,
        },
{
    match try_correlate_removal(
        &p.request,
        window,
        p.timestamp,
        next_timestamp,
        directory,
        p.id,
        summons,
        grace_period,
    ) {
        Ok((id, ids)) => Some(Resolution::Correlated(id, ids)),
        Err(_) => {
            if next_timestamp > p.timestamp && next_timestamp - p.timestamp > grace_period {
                Some(Resolution::Abandoned(p.id))
            } else {
                None
            }
        },
    }
}

/// A removal is never left waiting once the next event lies more than the
/// grace period after it: it is correlated or abandoned, not retried forever.
pub proof fn lemma_no_wait_past_grace(
    p: PendingRemoval,
    window: Seq<Event>,
    next_timestamp: u64,
    summons: Map<u64, u64>,
    chars: Seq<Character>,
    grace_period: u64,
)
    requires
        next_timestamp - p.timestamp > grace_period,
    ensures
        !(settle(p, window, next_timestamp, summons, chars, grace_period) is Waiting),
{
}

/// The settlements of the removals of `ps` that are no longer waiting, in order.
pub open spec fn settled_all(
    ps: Seq<PendingRemoval>,
    window: Seq<Event>,
    next_timestamp: u64,
    summons: Map<u64, u64>,
    chars: Seq<Character>,
    grace_period: u64,
) -> Seq<Settlement>
    decreases ps.len(),
{
    if ps.len() == 0 {
        Seq::empty()
    } else {
        let rest = settled_all(ps.drop_last(), window, next_timestamp, summons, chars, grace_period);
        match settle(ps.last(), window, next_timestamp, summons, chars, grace_period) {
            Settlement::Waiting => rest,
            s => rest.push(s),
        }
    }
}

/// The removals of `ps` that keep waiting, in order.
pub open spec fn still_waiting(
    ps: Seq<PendingRemoval>,
    window: Seq<Event>,
    next_timestamp: u64,
    summons: Map<u64, u64>,
    chars: Seq<Character>,
    grace_period: u64,
) -> Seq<PendingRemoval>
    decreases ps.len(),
{
    if ps.len() == 0 {
        Seq::empty()
    } else {
        let rest = still_waiting(ps.drop_last(), window, next_timestamp, summons, chars, grace_period);
        match settle(ps.last(), window, next_timestamp, summons, chars, grace_period) {
            Settlement::Waiting => rest.push(ps.last()),
            _ => rest,
        }
    }
}

/// The event that an aura application record becomes: the aura put on the
/// target by the caster. None where either is a player the directory lacks.
pub open spec fn aura_event(
    rec: AuraApplicationRecord,
    id: u32,
    timestamp: u64,
    summons: Map<u64, u64>,
    chars: Seq<Character>,
) -> Option<Event> {
    match (unit_of(rec.target, summons, chars), unit_of(rec.caster, summons, chars)) {
        (Some(subject), Some(caster)) => Some(
            Event {
                id,
                timestamp,
                subject,
                event: EventType::AuraApplication(
                    AuraApplication {
                        caster,
                        spell_id: rec.spell_id,
                        stack_amount: rec.stack_amount,
                    },
                ),
            },
        ),
        _ => None,
    }
}

/// The event that a loot record becomes: the loot of the character that the
/// directory knows by the looting unit's id. None for a unit it lacks.
pub open spec fn loot_event(l: Loot, id: u32, timestamp: u64, chars: Seq<Character>) -> Option<Event> {
    match character_id_by_uid(chars, l.unit) {
        Some(c) => Some(
            Event {
                id,
                timestamp,
                subject: Unit::Player(Player { character_id: c }),
                event: EventType::Loot(l),
            },
        ),
        None => None,
    }
}

/// The window once the record `m` has been taken in.
pub open spec fn window_after(
    w: Seq<Event>,
    m: Message,
    id: u32,
    timestamp: u64,
    summons: Map<u64, u64>,
    chars: Seq<Character>,
) -> Seq<Event> {
    let e = match m {
        Message::AuraApplication(rec) => aura_event(rec, id, timestamp, summons, chars),
        Message::Loot(l) => loot_event(l, id, timestamp, chars),
        _ => None,
    };
    match e {
        Some(e) => w.push(e),
        None => w,
    }
}

/// The summon map once the record `m` has been taken in.
pub open spec fn summons_after(summons: Map<u64, u64>, m: Message) -> Map<u64, u64> {
    match m {
        Message::Summon(rec) => summons.insert(rec.unit.unit_id, rec.owner.unit_id),
        _ => summons,
    }
}

/// Builds the event of an aura application record.
pub fn aura_event_of(
    rec: &AuraApplicationRecord,
    id: u32,
    timestamp: u64,
    summons: &HashMap<u64, u64>,
    directory: &Armory,
) -> (r: Option<Event>)
    ensures
        r == aura_event(*rec, id, timestamp, summons@, directory.characters@),
{
    let subject = match rec.target.to_unit(summons, directory) {
        Some(u) => u,
        None => {
            return None;
        },
    };
    let caster = match rec.caster.to_unit(summons, directory) {
        Some(u) => u,
        None => {
            return None;
        },
    };
    Some(
        Event {
            id,
            timestamp,
            subject,
            event: EventType::AuraApplication(
                AuraApplication { caster, spell_id: rec.spell_id, stack_amount: rec.stack_amount },
            ),
        },
    )
}

/// Builds the event of a loot record.
pub fn loot_event_of(l: &Loot, id: u32, timestamp: u64, directory: &Armory) -> (r: Option<Event>)
    ensures
        r == loot_event(*l, id, timestamp, directory.characters@),
{
    match directory.lookup_character(l.unit) {
        Some(c) => Some(
            Event {
                id,
                timestamp,
                subject: Unit::Player(Player { character_id: c }),
                event: EventType::Loot(*l),
            },
        ),
        None => None,
    }
}

/// The state of one connection.
#[derive(Debug)]
pub struct Stream {
    window: EventWindow,
    summons: HashMap<u64, u64>,
    pending: Vec<PendingRemoval>,
    grace_period: u64,
}

impl Stream {
    /// A fresh connection with nothing seen yet.
    pub fn new(grace_period: u64) -> (r: Stream)
        ensures
            r.window()@ == Seq::<Event>::empty(),
            r.summons()@ == Map::<u64, u64>::empty(),
            r.pending()@ == Seq::<PendingRemoval>::empty(),
            r.grace_period() == grace_period,
    {
        Stream { window: EventWindow::new(), summons: HashMap::new(), pending: Vec::new(), grace_period }
    }

    pub closed spec fn window(&self) -> EventWindow {
        self.window
    }

    pub closed spec fn summons(&self) -> HashMap<u64, u64> {
        self.summons
    }

    pub closed spec fn pending(&self) -> Vec<PendingRemoval> {
        self.pending
    }

    pub closed spec fn grace_period(&self) -> u64 {
        self.grace_period
    }

    /// The events in the window, in arrival order.
    pub fn events(&self) -> (r: &[Event])
        ensures
            r@ == self.window()@,
    {
        self.window.events()
    }

    /// The removals still waiting, in arrival order.
    pub fn waiting(&self) -> (r: &[PendingRemoval])
        ensures
            r@ == self.pending()@,
    {
        self.pending.as_slice()
    }

    /// Records that `unit_id` was summoned by `owner_id`.
    pub fn note_summon(&mut self, unit_id: u64, owner_id: u64)
        ensures
            final(self).summons()@ == old(self).summons()@.insert(unit_id, owner_id),
            final(self).window() == old(self).window(),
            final(self).pending() == old(self).pending(),
            final(self).grace_period() == old(self).grace_period(),
    {
        self.summons.insert(unit_id, owner_id);
    }

    /// Appends `event` to the window.
    pub fn record(&mut self, event: Event)
        ensures
            final(self).window()@ == old(self).window()@.push(event),
            final(self).summons() == old(self).summons(),
            final(self).pending() == old(self).pending(),
            final(self).grace_period() == old(self).grace_period(),
    {
        self.window.push(event);
    }

    /// Queues a removal to be settled when the next event arrives.
    pub fn defer(&mut self, removal: PendingRemoval)
        ensures
            final(self).pending()@ == old(self).pending()@.push(removal),
            final(self).window() == old(self).window(),
            final(self).summons() == old(self).summons(),
            final(self).grace_period() == old(self).grace_period(),
    {
        self.pending.push(removal);
    }

    /// An event at `next_timestamp` arrived: settles every waiting removal
    /// against the window, keeps those still waiting, then drops the events
    /// beyond the grace period. Returns the settled ones in queue order.
    pub fn advance(&mut self, directory: &Armory, next_timestamp: u64) -> (r: Vec<Resolution>)
        ensures
            ({
                let w = old(self).window()@;
                let s = old(self).summons()@;
                let ps = old(self).pending()@;
                let g = old(self).grace_period();
                let chars = directory.characters@;
                &&& r@.len() == settled_all(ps, w, next_timestamp, s, chars, g).len()
                &&& forall|i: int|
                    0 <= i < r@.len() ==> settlement_of(#[trigger] r@[i]) == settled_all(
                        ps,
                        w,
                        next_timestamp,
                        s,
                        chars,
                        g,
                    )[i]
                &&& final(self).pending()@ == still_waiting(ps, w, next_timestamp, s, chars, g)
                &&& final(self).window()@ == unexpired(w, g)
            }),
            final(self).summons() == old(self).summons(),
            final(self).grace_period() == old(self).grace_period(),
    {
        let ghost w = self.window@;
        let ghost s = self.summons@;
        let ghost ps = self.pending@;
        let ghost chars = directory.characters@;
        let g = self.grace_period;
        let mut resolved: Vec<Resolution> = Vec::new();
        let mut waiting: Vec<PendingRemoval> = Vec::new();
        let mut i: usize = 0;
        while i < self.pending.len()
            invariant
                i <= ps.len(),
                ps == self.pending@,
                w == self.window@,
                s == self.summons@,
                chars == directory.characters@,
                g == self.grace_period,
                resolved@.len() == settled_all(ps.subrange(0, i as int), w, next_timestamp, s, chars, g).len(),
                forall|k: int|
                    0 <= k < resolved@.len() ==> settlement_of(#[trigger] resolved@[k]) == settled_all(
                        ps.subrange(0, i as int),
                        w,
                        next_timestamp,
                        s,
                        chars,
                        g,
                    )[k],
                waiting@ == still_waiting(ps.subrange(0, i as int), w, next_timestamp, s, chars, g),
            decreases ps.len() - i,
        {
            assert(ps.subrange(0, i + 1).drop_last() =~= ps.subrange(0, i as int));
            let p = self.pending[i];
            match settle_removal(&p, self.window.events(), next_timestamp, directory, &self.summons, g) {
                Some(res) => {
                    resolved.push(res);
                },
                None => {
                    waiting.push(p);
                },
            }
            i += 1;
        }
        assert(ps.subrange(0, ps.len() as int) =~= ps);
        self.pending = waiting;
        self.window.evict_expired(g);
        resolved
    }

    /// Takes in the record `payload` of type `message_type` that arrived as
    /// event `id` at `timestamp`. A record that does not decode leaves the
    /// stream as it was. Otherwise its event enters the window or its summon
    /// the summon map; then the waiting removals are settled against the
    /// window with this record as the next event, the window drops what the
    /// grace period leaves behind, and a removal record joins the queue.
    /// Returns the removals settled.
    pub fn process(
        &mut self,
        directory: &Armory,
        id: u32,
        timestamp: u64,
        message_type: u8,
        payload: &[u8],
    ) -> (r: Result<Vec<Resolution>, DecodeError>)
        ensures
            decoded(message_type, payload@) matches Err(e) ==> {
                &&& r == Err::<Vec<Resolution>, DecodeError>(e)
                &&& final(self).window() == old(self).window()
                &&& final(self).summons() == old(self).summons()
                &&& final(self).pending() == old(self).pending()
                &&& final(self).grace_period() == old(self).grace_period()
            },
            decoded(message_type, payload@) matches Ok(m) ==> ({
                let chars = directory.characters@;
                let s = old(self).summons()@;
                let g = old(self).grace_period();
                let w1 = window_after(old(self).window()@, m, id, timestamp, s, chars);
                let s1 = summons_after(s, m);
                let ps = old(self).pending()@;
                let settled = settled_all(ps, w1, timestamp, s1, chars, g);
                let waiting = still_waiting(ps, w1, timestamp, s1, chars, g);
                &&& r matches Ok(res) && res@.len() == settled.len() && forall|i: int|
                    0 <= i < res@.len() ==> settlement_of(#[trigger] res@[i]) == settled[i]
                &&& final(self).window()@ == unexpired(w1, g)
                &&& final(self).summons()@ == s1
                &&& final(self).pending()@ == match m {
                    Message::UnAura(u) => waiting.push(
                        PendingRemoval { id, timestamp, request: u },
                    ),
                    _ => waiting,
                }
                &&& final(self).grace_period() == g
            }),
    {
        let m = decode(message_type, payload)?;
        match m {
            Message::AuraApplication(rec) => {
                if let Some(e) = aura_event_of(&rec, id, timestamp, &self.summons, directory) {
                    self.record(e);
                }
            },
            Message::Loot(l) => {
                if let Some(e) = loot_event_of(&l, id, timestamp, directory) {
                    self.record(e);
                }
            },
            Message::Summon(rec) => {
                self.note_summon(rec.unit.unit_id, rec.owner.unit_id);
            },
            Message::UnAura(_) => {},
        }
        let resolved = self.advance(directory, timestamp);
        if let Message::UnAura(request) = m {
            self.defer(PendingRemoval { id, timestamp, request });
        }
        Ok(resolved)
    }
}

} // verus!

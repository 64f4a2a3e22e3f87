//! The per-stream window of recent events that removals are correlated against.

use vstd::prelude::*;

use crate::event::{same_event, Event};

verus! {

/// The events of `s` whose timestamp is at least `since`, in order.
pub open spec fn events_since(s: Seq<Event>, since: u64) -> Seq<Event>
    decreases s.len(),
{
    if s.len() == 0 {
        Seq::empty()
    } else {
        let rest = events_since(s.drop_last(), since);
        if s.last().timestamp >= since {
            rest.push(s.last())
        } else {
            rest
        }
    }
}

/// The largest timestamp in `s`; none for an empty sequence.
pub open spec fn latest_in(s: Seq<Event>) -> Option<u64>
    decreases s.len(),
{
    if s.len() == 0 {
        None
    } else {
        match latest_in(s.drop_last()) {
            Some(t) => if t >= s.last().timestamp {
                Some(t)
            } else {
                Some(s.last().timestamp)
            },
            None => Some(s.last().timestamp),
        }
    }
}

/// What is left of `s` once the events more than `grace_period` older than
/// its latest one are dropped.
pub open spec fn unexpired(s: Seq<Event>, grace_period: u64) -> Seq<Event> {
    match latest_in(s) {
        Some(latest) => events_since(
            s,
            if latest >= grace_period {
                (latest - grace_period) as u64
            } else {
                0
            },
        ),
        None => s,
    }
}

/// Recent events of one stream in arrival order.
#[derive(Debug)]
pub struct EventWindow {
    events: Vec<Event>,
}

impl View for EventWindow {
    type V = Seq<Event>;

    closed spec fn view(&self) -> Seq<Event> {
        self.events@
    }
}

impl EventWindow {
    /// An empty window.
    pub fn new() -> (r: EventWindow)
        ensures
            r@ == Seq::<Event>::empty(),
    {
        EventWindow { events: Vec::new() }
    }

    pub fn len(&self) -> (r: usize)
        ensures
            r == self@.len(),
    {
        self.events.len()
    }

    /// The events held, in arrival order.
    pub fn events(&self) -> (r: &[Event])
        ensures
            r@ == self@,
    {
        self.events.as_slice()
    }

    /// Appends `event` after all events held.
    pub fn push(&mut self, event: Event)
        ensures
            final(self)@ == old(self)@.push(event),
    {
        self.events.push(event);
    }

    /// Copies of the events with a timestamp of at least `since` (all events
    /// where `since` is none), in arrival order.
    pub fn snapshot(&self, since: Option<u64>) -> (r: Vec<Event>)
        ensures
            ({
                let kept = match since {
                    Some(t) => events_since(self@, t),
                    None => self@,
                };
                &&& r@.len() == kept.len()
                &&& forall|i: int| 0 <= i < r@.len() ==> same_event(#[trigger] r@[i], kept[i])
            }),
    {
        let t = match since {
            Some(t) => t,
            None => 0,
        };
        proof {
            lemma_since_zero_keeps_all(self@);
        }
        let mut r: Vec<Event> = Vec::new();
        let mut i: usize = 0;
        while i < self.events.len()
            invariant
                i <= self@.len(),
                since is None ==> t == 0,
                since matches Some(s) ==> t == s,
                r@.len() == events_since(self@.subrange(0, i as int), t).len(),
                forall|k: int|
                    0 <= k < r@.len() ==> same_event(
                        #[trigger] r@[k],
                        events_since(self@.subrange(0, i as int), t)[k],
                    ),
            decreases self.events.len() - i,
        {
            let ghost prefix = self@.subrange(0, i as int);
            assert(self@.subrange(0, i + 1).drop_last() =~= prefix);
            if self.events[i].timestamp >= t {
                r.push(self.events[i].duplicate());
            }
            i += 1;
        }
        assert(self@.subrange(0, self@.len() as int) =~= self@);
        r
    }

    /// The largest timestamp held; none for an empty window.
    pub fn latest_timestamp(&self) -> (r: Option<u64>)
        ensures
            r == latest_in(self@),
    {
        let mut latest: Option<u64> = None;
        let mut i: usize = 0;
        while i < self.events.len()
            invariant
                i <= self@.len(),
                latest == latest_in(self@.subrange(0, i as int)),
            decreases self.events.len() - i,
        {
            assert(self@.subrange(0, i + 1).drop_last() =~= self@.subrange(0, i as int));
            let ts = self.events[i].timestamp;
            latest = match latest {
                Some(l) => if l >= ts {
                    Some(l)
                } else {
                    Some(ts)
                },
                None => Some(ts),
            };
            i += 1;
        }
        assert(self@.subrange(0, self@.len() as int) =~= self@);
        latest
    }

    /// Drops the events with a timestamp before `since`; the others keep their order.
    pub fn evict_older_than(&mut self, since: u64)
        ensures
            final(self)@ == events_since(old(self)@, since),
    {
        let ghost orig = self@;
        let mut i: usize = 0;
        let ghost mut j: int = 0;
        while i < self.events.len()
            invariant
                0 <= j <= orig.len(),
                self@ == events_since(orig.subrange(0, j), since) + orig.subrange(j, orig.len() as int),
                i == events_since(orig.subrange(0, j), since).len(),
            decreases orig.len() - j,
        {
            let ghost kept = events_since(orig.subrange(0, j), since);
            assert(orig.subrange(0, j + 1).drop_last() =~= orig.subrange(0, j));
            assert(self@[i as int] == orig[j]);
            if self.events[i].timestamp < since {
                self.events.remove(i);
                assert(self@ =~= kept + orig.subrange(j + 1, orig.len() as int));
            } else {
                assert(self@ =~= kept.push(orig[j]) + orig.subrange(j + 1, orig.len() as int));
                i += 1;
            }
            proof {
                j = j + 1;
            }
        }
        assert(orig.subrange(j, orig.len() as int) =~= Seq::<Event>::empty());
        assert(orig.subrange(0, j) =~= orig);
        assert(self@ =~= events_since(orig, since));
    }

    /// Drops the events more than `grace_period` older than the latest one held.
    pub fn evict_expired(&mut self, grace_period: u64)
        ensures
            final(self)@ == unexpired(old(self)@, grace_period),
            latest_in(old(self)@) matches Some(latest) ==> forall|i: int|
                0 <= i < final(self)@.len() ==> #[trigger] final(self)@[i].timestamp + grace_period
                    >= latest,
    {
        match self.latest_timestamp() {
            Some(latest) => {
                let since = if latest >= grace_period {
                    latest - grace_period
                } else {
                    0
                };
                self.evict_older_than(since);
                proof {
                    lemma_events_since_bound(old(self)@, since);
                }
            },
            None => {},
        }
    }
}

/// Every event kept has a timestamp of at least the bound.
proof fn lemma_events_since_bound(s: Seq<Event>, since: u64)
    ensures
        forall|i: int|
            0 <= i < events_since(s, since).len() ==> #[trigger] events_since(s, since)[i].timestamp
                >= since,
    decreases s.len(),
{
    if s.len() > 0 {
        lemma_events_since_bound(s.drop_last(), since);
    }
}

/// With a bound of zero every event is kept.
proof fn lemma_since_zero_keeps_all(s: Seq<Event>)
    ensures
        events_since(s, 0) == s,
    decreases s.len(),
{
    if s.len() > 0 {
        lemma_since_zero_keeps_all(s.drop_last());
        assert(s.drop_last().push(s.last()) =~= s);
    }
}

} // verus!

//! Correlation of an aura removal with the applications it removes.

use std::collections::HashMap;
use vstd::prelude::*;

use crate::armory::{Armory, Character};
use crate::event::{Event, EventType};
use crate::unit::{dto_identity, identity_of, resolve, DtoUnit, Identity};

verus! {

/// Server-clock units after which no further corroborating event is expected.
pub const GRACE_PERIOD: u64 = 10;

/// A notice that `un_aura_amount` stacks of `target_spell_id` were removed
/// from `target` by `un_aura_caster`'s spell `un_aura_spell_id`.
#[derive(Clone, Copy, Debug, PartialEq, Eq, Structural)]
pub struct UnAura {
    pub un_aura_caster: DtoUnit,
    pub target: DtoUnit,
    pub aura_caster: DtoUnit,
    pub un_aura_spell_id: u32,
    pub target_spell_id: u32,
    pub un_aura_amount: u32,
}

/// Why a removal could not be correlated yet.
#[derive(Clone, Copy, Debug, PartialEq, Eq, Structural)]
pub enum CorrelationError {
    /// Not decidable on the events seen so far: present the request again later.
    Indeterminate,
}

/// `e` applies the aura `spell_id` to the unit whose identity is `target`.
pub open spec fn is_candidate(
    e: Event,
    target: Option<Identity>,
    spell_id: u32,
    summons: Map<u64, u64>,
    chars: Seq<Character>,
) -> bool {
    &&& target == Some(identity_of(e.subject, summons, chars))
    &&& match e.event {
        EventType::AuraApplication(a) => a.spell_id == spell_id,
        _ => false,
    }
}

/// The ids of all candidates of `window`, in window order.
pub open spec fn candidate_ids(
    window: Seq<Event>,
    target: Option<Identity>,
    spell_id: u32,
    summons: Map<u64, u64>,
    chars: Seq<Character>,
) -> Seq<u32>
    decreases window.len(),
{
    if window.len() == 0 {
        Seq::empty()
    } else {
        let rest = candidate_ids(window.drop_last(), target, spell_id, summons, chars);
        if is_candidate(window.last(), target, spell_id, summons, chars) {
            rest.push(window.last().id)
        } else {
            rest
        }
    }
}

/// The ids of the events of `window` that could be the auras `request` removes.
pub open spec fn candidates_of(
    request: UnAura,
    window: Seq<Event>,
    summons: Map<u64, u64>,
    chars: Seq<Character>,
) -> Seq<u32> {
    candidate_ids(
        window,
        dto_identity(request.target, summons, chars),
        request.target_spell_id,
        summons,
        chars,
    )
}

/// The first `n` elements of `s`, or all of them where there are fewer.
pub open spec fn first_n(s: Seq<u32>, n: nat) -> Seq<u32> {
    if s.len() <= n {
        s
    } else {
        s.take(n as int)
    }
}

/// The ids of the candidates that the request matches: the first ones in
/// window order, up to the requested amount.
pub open spec fn matched_ids(
    request: UnAura,
    window: Seq<Event>,
    summons: Map<u64, u64>,
    chars: Seq<Character>,
) -> Seq<u32> {
    first_n(candidates_of(request, window, summons, chars), request.un_aura_amount as nat)
}

/// The request is decided: all requested stacks were matched, or some were and
/// the next event lies more than the grace period after this one.
pub open spec fn is_decided(
    request: UnAura,
    window: Seq<Event>,
    timestamp: u64,
    next_timestamp: u64,
    summons: Map<u64, u64>,
    chars: Seq<Character>,
    grace_period: u64,
) -> bool {
    let m = matched_ids(request, window, summons, chars);
    m.len() == request.un_aura_amount || (m.len() > 0 && next_timestamp - timestamp
        > grace_period)
}

/// Finds the aura applications that a removal undoes.
///
/// Scans `window` in order and takes, up to `un_aura_amount`, the applications
/// of `target_spell_id` whose subject resolves to the same identity as the
/// request's target. Succeeds with `own_id` and those ids when all requested
/// stacks were found, or when some were and more than `grace_period` separates
/// `timestamp` from `next_timestamp`; otherwise the request is indeterminate.
pub fn try_correlate_removal(
    request: &UnAura,
    window: &[Event],
    timestamp: u64,
    next_timestamp: u64,
    directory: &Armory,
    own_id: u32,
    summons: &HashMap<u64, u64>,
    grace_period: u64,
) -> (r: Result<(u32, Vec<u32>), CorrelationError>)
    ensures
        r is Ok <==> is_decided(
            *request,
            window@,
            timestamp,
            next_timestamp,
            summons@,
            directory.characters@,
            grace_period,
        ),
        r matches Ok((id, ids)) ==> id == own_id && ids@ == matched_ids(
            *request,
            window@,
            summons@,
            directory.characters@,
        ),
        r matches Err(e) ==> e == CorrelationError::Indeterminate,
{
    let ghost chars = directory.characters@;
    let ghost s = summons@;
    let target = request.target.resolve(summons, directory);
    let amount = request.un_aura_amount as usize;
    let mut ids: Vec<u32> = Vec::new();
    let mut i: usize = 0;
    while i < window.len()
        invariant
            i <= window@.len(),
            amount == request.un_aura_amount,
            s == summons@,
            chars == directory.characters@,
            target == dto_identity(request.target, s, chars),
            ids@ == first_n(
                candidate_ids(window@.subrange(0, i as int), target, request.target_spell_id, s, chars),
                amount as nat,
            ),
        decreases window.len() - i,
    {
        let ghost prefix = window@.subrange(0, i as int);
        let ghost next = window@.subrange(0, i + 1);
        let ghost before = candidate_ids(prefix, target, request.target_spell_id, s, chars);
        let ghost cand = is_candidate(window@[i as int], target, request.target_spell_id, s, chars);
        assert(next.drop_last() =~= prefix);
        assert(next.last() == window@[i as int]);
        assert(candidate_ids(next, target, request.target_spell_id, s, chars) == if cand {
            before.push(window@[i as int].id)
        } else {
            before
        });
        let e = &window[i];
        if ids.len() < amount {
            let mut matches = false;
            if let EventType::AuraApplication(a) = &e.event {
                if a.spell_id == request.target_spell_id {
                    let subject = resolve(&e.subject, summons, directory);
                    if let Some(t) = target {
                        matches = t == subject;
                    }
                }
            }
            assert(matches == cand);
            if matches {
                ids.push(e.id);
            }
        }
        assert(ids@ =~= first_n(
            candidate_ids(next, target, request.target_spell_id, s, chars),
            amount as nat,
        ));
        i += 1;
    }
    assert(window@.subrange(0, window@.len() as int) =~= window@);
    if ids.len() == amount || (!ids.is_empty() && next_timestamp > timestamp && next_timestamp
        - timestamp > grace_period) {
        Ok((own_id, ids))
    } else {
        Err(CorrelationError::Indeterminate)
    }
}

/// [`try_correlate_removal`] with the standard grace period.
pub fn try_parse_dispel(
    request: &UnAura,
    window: &[Event],
    timestamp: u64,
    next_timestamp: u64,
    directory: &Armory,
    own_id: u32,
    summons: &HashMap<u64, u64>,
) -> (r: Result<(u32, Vec<u32>), CorrelationError>)
    ensures
        r is Ok <==> is_decided(
            *request,
            window@,
            timestamp,
            next_timestamp,
            summons@,
            directory.characters@,
            GRACE_PERIOD,
        ),
        r matches Ok((id, ids)) ==> id == own_id && ids@ == matched_ids(
            *request,
            window@,
            summons@,
            directory.characters@,
        ),
        r matches Err(e) ==> e == CorrelationError::Indeterminate,
{
    try_correlate_removal(
        request,
        window,
        timestamp,
        next_timestamp,
        directory,
        own_id,
        summons,
        GRACE_PERIOD,
    )
}

/// Candidates of a window split in two are those of the first part followed by
/// those of the second.
pub proof fn lemma_candidates_concat(
    a: Seq<Event>,
    b: Seq<Event>,
    target: Option<Identity>,
    spell_id: u32,
    summons: Map<u64, u64>,
    chars: Seq<Character>,
)
    ensures
        candidate_ids(a + b, target, spell_id, summons, chars) == candidate_ids(
            a,
            target,
            spell_id,
            summons,
            chars,
        ) + candidate_ids(b, target, spell_id, summons, chars),
    decreases b.len(),
{
    if b.len() == 0 {
        assert(a + b =~= a);
        assert(candidate_ids(b, target, spell_id, summons, chars) =~= Seq::empty());
        assert(candidate_ids(a, target, spell_id, summons, chars) + Seq::empty() =~= candidate_ids(
            a,
            target,
            spell_id,
            summons,
            chars,
        ));
    } else {
        assert((a + b).drop_last() =~= a + b.drop_last());
        assert((a + b).last() == b.last());
        lemma_candidates_concat(a, b.drop_last(), target, spell_id, summons, chars);
        let ca = candidate_ids(a, target, spell_id, summons, chars);
        let cb = candidate_ids(b.drop_last(), target, spell_id, summons, chars);
        assert((ca + cb).push(b.last().id) =~= ca + cb.push(b.last().id));
    }
}

/// A removal of zero stacks succeeds at once with no matches, whatever the window holds.
pub proof fn lemma_zero_amount_succeeds(
    request: UnAura,
    window: Seq<Event>,
    timestamp: u64,
    next_timestamp: u64,
    summons: Map<u64, u64>,
    chars: Seq<Character>,
    grace_period: u64,
)
    requires
        request.un_aura_amount == 0,
    ensures
        is_decided(request, window, timestamp, next_timestamp, summons, chars, grace_period),
        matched_ids(request, window, summons, chars) == Seq::<u32>::empty(),
{
    let c = candidates_of(request, window, summons, chars);
    assert(first_n(c, 0) =~= Seq::<u32>::empty());
}

/// Where the window holds exactly as many candidates as the stacks removed, the
/// removal succeeds with exactly those candidates, in window order.
pub proof fn lemma_exact_candidates_succeed(
    request: UnAura,
    window: Seq<Event>,
    timestamp: u64,
    next_timestamp: u64,
    summons: Map<u64, u64>,
    chars: Seq<Character>,
    grace_period: u64,
)
    requires
        candidates_of(request, window, summons, chars).len() == request.un_aura_amount,
    ensures
        is_decided(request, window, timestamp, next_timestamp, summons, chars, grace_period),
        matched_ids(request, window, summons, chars) == candidates_of(
            request,
            window,
            summons,
            chars,
        ),
{
}

/// Fewer candidates than stacks removed, with the next event within the grace
/// period: the removal is indeterminate.
pub proof fn lemma_short_within_grace_indeterminate(
    request: UnAura,
    window: Seq<Event>,
    timestamp: u64,
    next_timestamp: u64,
    summons: Map<u64, u64>,
    chars: Seq<Character>,
    grace_period: u64,
)
    requires
        candidates_of(request, window, summons, chars).len() < request.un_aura_amount,
        next_timestamp - timestamp <= grace_period,
    ensures
        !is_decided(request, window, timestamp, next_timestamp, summons, chars, grace_period),
{
}

/// Some but fewer candidates than stacks removed, with the next event past the
/// grace period: the removal succeeds with the candidates found.
pub proof fn lemma_partial_after_grace_succeeds(
    request: UnAura,
    window: Seq<Event>,
    timestamp: u64,
    next_timestamp: u64,
    summons: Map<u64, u64>,
    chars: Seq<Character>,
    grace_period: u64,
)
    requires
        0 < candidates_of(request, window, summons, chars).len() < request.un_aura_amount,
        next_timestamp - timestamp > grace_period,
    ensures
        is_decided(request, window, timestamp, next_timestamp, summons, chars, grace_period),
        matched_ids(request, window, summons, chars) == candidates_of(
            request,
            window,
            summons,
            chars,
        ),
{
}

/// No candidate at all for a removal of some stacks is indeterminate, however
/// long after the removal the next event comes.
pub proof fn lemma_no_candidates_indeterminate(
    request: UnAura,
    window: Seq<Event>,
    timestamp: u64,
    next_timestamp: u64,
    summons: Map<u64, u64>,
    chars: Seq<Character>,
    grace_period: u64,
)
    requires
        candidates_of(request, window, summons, chars).len() == 0,
        request.un_aura_amount > 0,
    ensures
        !is_decided(request, window, timestamp, next_timestamp, summons, chars, grace_period),
{
}

/// An aura application whose subject resolves to another identity than the
/// target, or whose spell is another one, is no candidate: inserting it
/// anywhere in the window changes neither the matches nor the outcome.
pub proof fn lemma_mismatch_excluded(
    request: UnAura,
    before: Seq<Event>,
    e: Event,
    after: Seq<Event>,
    timestamp: u64,
    next_timestamp: u64,
    summons: Map<u64, u64>,
    chars: Seq<Character>,
    grace_period: u64,
)
    requires
        dto_identity(request.target, summons, chars) != Some(identity_of(e.subject, summons, chars))
            || (e.event matches EventType::AuraApplication(a) && a.spell_id
            != request.target_spell_id),
    ensures
        matched_ids(request, before + seq![e] + after, summons, chars) == matched_ids(
            request,
            before + after,
            summons,
            chars,
        ),
        is_decided(
            request,
            before + seq![e] + after,
            timestamp,
            next_timestamp,
            summons,
            chars,
            grace_period,
        ) == is_decided(
            request,
            before + after,
            timestamp,
            next_timestamp,
            summons,
            chars,
            grace_period,
        ),
{
    let target = dto_identity(request.target, summons, chars);
    let spell = request.target_spell_id;
    lemma_candidates_concat(before + seq![e], after, target, spell, summons, chars);
    lemma_candidates_concat(before, seq![e], target, spell, summons, chars);
    lemma_candidates_concat(before, after, target, spell, summons, chars);
    assert(seq![e].drop_last() =~= Seq::<Event>::empty());
    assert(seq![e].last() == e);
    assert(!is_candidate(e, target, spell, summons, chars));
    assert(candidate_ids(Seq::<Event>::empty(), target, spell, summons, chars) =~= Seq::<u32>::empty());
    assert(candidate_ids(seq![e], target, spell, summons, chars) =~= Seq::<u32>::empty());
    let cb = candidate_ids(before, target, spell, summons, chars);
    assert(cb + Seq::<u32>::empty() =~= cb);
}

} // verus!

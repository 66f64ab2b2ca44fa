use vstd::prelude::*;
use crate::event::MembershipEvent;
use crate::gate::PostGate;
use crate::stats::Stats;

verus! {

/// Whether `ev` changes the membership in `cache` — the dedup decision. A
/// resync always counts as a change (it is a fresh snapshot of the whole
/// set); an add of a known identifier or a remove of an absent one does not,
/// and an ignored event never does.
pub open spec fn event_applies(cache: Set<u64>, ev: MembershipEvent) -> bool {
    match ev {
        MembershipEvent::Resync(_) => true,
        MembershipEvent::Add(id) => !cache.contains(id),
        MembershipEvent::Remove(id) => cache.contains(id),
        MembershipEvent::Ignored => false,
    }
}

/// The membership after `ev` hits `cache`.
pub open spec fn cache_after(cache: Set<u64>, ev: MembershipEvent) -> Set<u64> {
    match ev {
        MembershipEvent::Resync(ids) => ids@.to_set(),
        MembershipEvent::Add(id) => cache.insert(id),
        MembershipEvent::Remove(id) => cache.remove(id),
        MembershipEvent::Ignored => cache,
    }
}

/// The statistics after `ev`: a change writes the new cardinality into the
/// server count and leaves the shard count alone; a non-change writes
/// nothing at all.
pub open spec fn stats_after(stats: Stats, cache: Set<u64>, ev: MembershipEvent) -> Stats {
    if event_applies(cache, ev) {
        Stats {
            server_count: Some(cache_after(cache, ev).len() as usize),
            shard_count: stats.shard_count,
        }
    } else {
        stats
    }
}

/// Whether processing `ev` at time `now_ms` fires a delivery: only a
/// membership change attempts one, and the post gate must be open.
pub open spec fn posts(gate: PostGate, cache: Set<u64>, ev: MembershipEvent, now_ms: u64) -> bool {
    event_applies(cache, ev) && gate.is_open(now_ms)
}

/// The post gate after `ev`: stamped with `now_ms` exactly when a delivery fired,
/// untouched otherwise.
pub open spec fn gate_after(
    gate: PostGate,
    cache: Set<u64>,
    ev: MembershipEvent,
    now_ms: u64,
) -> PostGate {
    if posts(gate, cache, ev, now_ms) {
        PostGate { min_interval_ms: gate.min_interval_ms, last_post_ms: Some(now_ms) }
    } else {
        gate
    }
}

/// The membership after a whole sequence of events.
pub open spec fn cache_after_all(cache: Set<u64>, events: Seq<MembershipEvent>) -> Set<u64>
    decreases events.len(),
{
    if events.len() == 0 {
        cache
    } else {
        cache_after_all(cache_after(cache, events[0]), events.drop_first())
    }
}

/// The statistics after a whole sequence of events.
pub open spec fn stats_after_all(
    stats: Stats,
    cache: Set<u64>,
    events: Seq<MembershipEvent>,
) -> Stats
    decreases events.len(),
{
    if events.len() == 0 {
        stats
    } else {
        stats_after_all(
            stats_after(stats, cache, events[0]),
            cache_after(cache, events[0]),
            events.drop_first(),
        )
    }
}

/// Counting law: one dispatched event keeps the reported server count equal
/// to the cache's cardinality. This is the no-drift invariant of the whole
/// pipeline; [`lemma_sequence_preserves_count`] extends it to every sequence
/// of events.
pub proof fn lemma_step_preserves_count(cache: Set<u64>, stats: Stats, ev: MembershipEvent)
    requires
        cache.finite(),
        stats.server_count == Some(cache.len() as usize),
    ensures
        cache_after(cache, ev).finite(),
        stats_after(stats, cache, ev).server_count == Some(cache_after(cache, ev).len() as usize),
{
    broadcast use vstd::seq_lib::seq_to_set_is_finite;

    match ev {
        MembershipEvent::Resync(_) => {},
        MembershipEvent::Add(id) => {
            if cache.contains(id) {
                assert(cache.insert(id) =~= cache);
            }
        },
        MembershipEvent::Remove(id) => {
            if !cache.contains(id) {
                assert(cache.remove(id) =~= cache);
            }
        },
        MembershipEvent::Ignored => {},
    }
}

/// For every sequence of add, remove, resync and ignored events, the server
/// count reported after processing equals the membership cardinality after
/// processing.
pub proof fn lemma_sequence_preserves_count(
    cache: Set<u64>,
    stats: Stats,
    events: Seq<MembershipEvent>,
)
    requires
        cache.finite(),
        stats.server_count == Some(cache.len() as usize),
    ensures
        cache_after_all(cache, events).finite(),
        stats_after_all(stats, cache, events).server_count == Some(
            cache_after_all(cache, events).len() as usize,
        ),
    decreases events.len(),
{
    if events.len() != 0 {
        lemma_step_preserves_count(cache, stats, events[0]);
        lemma_sequence_preserves_count(
            cache_after(cache, events[0]),
            stats_after(stats, cache, events[0]),
            events.drop_first(),
        );
    }
}

/// Dedup law: re-delivering an already-applied add, or a remove of an absent
/// identifier, changes neither the membership nor the statistics, and
/// attempts no delivery.
pub proof fn lemma_duplicate_delivery_is_noop(
    cache: Set<u64>,
    stats: Stats,
    gate: PostGate,
    id: u64,
    now_ms: u64,
)
    ensures
        cache.contains(id) ==> {
            &&& cache_after(cache, MembershipEvent::Add(id)) == cache
            &&& stats_after(stats, cache, MembershipEvent::Add(id)) == stats
            &&& !posts(gate, cache, MembershipEvent::Add(id), now_ms)
            &&& gate_after(gate, cache, MembershipEvent::Add(id), now_ms) == gate
        },
        !cache.contains(id) ==> {
            &&& cache_after(cache, MembershipEvent::Remove(id)) == cache
            &&& stats_after(stats, cache, MembershipEvent::Remove(id)) == stats
            &&& !posts(gate, cache, MembershipEvent::Remove(id), now_ms)
            &&& gate_after(gate, cache, MembershipEvent::Remove(id), now_ms) == gate
        },
{
    if cache.contains(id) {
        assert(cache.insert(id) =~= cache);
    } else {
        assert(cache.remove(id) =~= cache);
    }
}

/// Resync law: a full resync attempts a delivery whether or not the
/// cardinality changed; only the post gate decides whether it fires.
pub proof fn lemma_resync_always_attempts(
    cache: Set<u64>,
    gate: PostGate,
    ids: Vec<u64>,
    now_ms: u64,
)
    ensures
        posts(gate, cache, MembershipEvent::Resync(ids), now_ms) == gate.is_open(now_ms),
{
}

/// No-lost-update law: an add and a remove of two different identifiers land
/// in the same membership whichever order the cache serializes them in, and
/// both take effect.
pub proof fn lemma_distinct_events_commute(cache: Set<u64>, added: u64, removed: u64)
    requires
        added != removed,
    ensures
        cache_after(cache_after(cache, MembershipEvent::Add(added)), MembershipEvent::Remove(removed))
            == cache_after(
            cache_after(cache, MembershipEvent::Remove(removed)),
            MembershipEvent::Add(added),
        ),
        cache_after(
            cache_after(cache, MembershipEvent::Add(added)),
            MembershipEvent::Remove(removed),
        ).contains(added),
        !cache_after(
            cache_after(cache, MembershipEvent::Add(added)),
            MembershipEvent::Remove(removed),
        ).contains(removed),
{
    assert(cache.insert(added).remove(removed) =~= cache.remove(removed).insert(added));
}

} // verus!

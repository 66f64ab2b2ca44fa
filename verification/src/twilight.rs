use vstd::prelude::*;
use crate::cache::MembershipCache;
use crate::dispatch::{cache_after, gate_after, posts, stats_after};
use crate::event::MembershipEvent;
use crate::gate::{PostGate, MIN_INTERVAL_MS};
use crate::stats::Stats;
use twilight_model::gateway::event::Event;

verus! {

/// Declares twilight_model's gateway [`Event`] so it may stand in
/// signatures; its insides stay opaque to the verifier.
#[verifier::external_type_specification]
#[verifier::external_body]
pub struct ExEvent(Event);

/// Relies on twilight_model's gateway event model: `Ready` carries the full
/// current guild membership, `GuildCreate` and `GuildDelete` carry the
/// identifier of one guild joined or left, and no other event speaks of
/// membership. Guild identifiers are read with `Id::get`.
#[verifier::external_body]
fn classify(event: &Event) -> MembershipEvent {
    match event {
        Event::Ready(ready) => MembershipEvent::Resync(
            ready.guilds.iter().map(|guild| guild.id.get()).collect(),
        ),
        Event::GuildCreate(guild_create) => MembershipEvent::Add(guild_create.id().get()),
        Event::GuildDelete(guild_delete) => MembershipEvent::Remove(guild_delete.id.get()),
        _ => MembershipEvent::Ignored,
    }
}

/// The built-in handler for the twilight library: the membership cache, the
/// statistics record derived from it, and the post gate in front of the reporting
/// endpoint. Raw gateway events go into [`Twilight::handle`]; the snapshot
/// it hands back, if any, is what the caller must deliver.
pub struct Twilight {
    /// Membership the bot is currently known to have.
    pub cache: MembershipCache,
    /// Statistics mirrored from the cache.
    pub stats: Stats,
    /// Debouncing gate for outbound deliveries.
    pub gate: PostGate,
}

impl Twilight {
    /// The handler invariant: the post gate respects the interval floor and the
    /// reported server count equals the cache's cardinality — the count
    /// never drifts from the membership it is derived from.
    pub open spec fn wf(self) -> bool {
        &&& self.gate.wf()
        &&& self.cache@.finite()
        &&& self.stats.server_count == Some(self.cache@.len() as usize)
    }

    /// A fresh handler: empty membership, zero count, a gate that has not
    /// posted yet.
    pub fn new(min_interval_ms: u64) -> (handler: Self)
        requires
            min_interval_ms >= MIN_INTERVAL_MS,
        ensures
            handler.wf(),
            handler.cache@ == Set::<u64>::empty(),
            handler.stats == (Stats { server_count: Some(0usize), shard_count: None }),
            handler.gate == (PostGate { min_interval_ms, last_post_ms: None }),
    {
        let handler = Twilight {
            cache: MembershipCache::new(),
            stats: Stats::new(),
            gate: PostGate::new(min_interval_ms),
        };
        proof {
            assert(handler.cache@.len() == 0);
        }
        handler
    }

    /// One debounced post attempt at `now_ms`: if the post gate is open, stamps
    /// it shut and returns the snapshot the caller must now deliver;
    /// otherwise returns nothing and changes nothing.
    pub fn try_post(&mut self, now_ms: u64) -> (to_post: Option<Stats>)
        ensures
            final(self).cache == old(self).cache,
            final(self).stats == old(self).stats,
            final(self).gate == (if old(self).gate.is_open(now_ms) {
                PostGate {
                    min_interval_ms: old(self).gate.min_interval_ms,
                    last_post_ms: Some(now_ms),
                }
            } else {
                old(self).gate
            }),
            to_post == (if old(self).gate.is_open(now_ms) {
                Some(old(self).stats)
            } else {
                None::<Stats>
            }),
    {
        if self.gate.try_open(now_ms) {
            Some(self.stats)
        } else {
            None
        }
    }

    /// Dispatches one abstract membership event at time `now_ms`: the cache
    /// is brought up to date, a real change writes the new cardinality into
    /// the statistics, and only then is the post gate consulted. The returned
    /// snapshot, if any, is what the caller must deliver.
    pub fn handle_event(&mut self, event: &MembershipEvent, now_ms: u64) -> (to_post: Option<
        Stats,
    >)
        requires
            old(self).wf(),
        ensures
            final(self).wf(),
            final(self).cache@ == cache_after(old(self).cache@, *event),
            final(self).stats == stats_after(old(self).stats, old(self).cache@, *event),
            final(self).gate == gate_after(old(self).gate, old(self).cache@, *event, now_ms),
            to_post == (if posts(old(self).gate, old(self).cache@, *event, now_ms) {
                Some(final(self).stats)
            } else {
                None::<Stats>
            }),
    {
        proof {
            crate::dispatch::lemma_step_preserves_count(old(self).cache@, old(self).stats, *event);
        }
        match event {
            MembershipEvent::Resync(ids) => {
                let n = self.cache.reset(ids);
                self.stats.set_server_count(n);
                self.try_post(now_ms)
            },
            MembershipEvent::Add(id) => {
                if self.cache.insert(*id) {
                    let n = self.cache.len();
                    self.stats.set_server_count(n);
                    self.try_post(now_ms)
                } else {
                    proof {
                        assert(old(self).cache@.insert(*id) =~= old(self).cache@);
                    }
                    None
                }
            },
            MembershipEvent::Remove(id) => {
                if self.cache.remove(*id) {
                    let n = self.cache.len();
                    self.stats.set_server_count(n);
                    self.try_post(now_ms)
                } else {
                    proof {
                        assert(old(self).cache@.remove(*id) =~= old(self).cache@);
                    }
                    None
                }
            },
            MembershipEvent::Ignored => None,
        }
    }

    /// Handles one raw twilight gateway event at time `now_ms`. The raw
    /// event is first reduced to an abstract membership event; the handler
    /// then behaves exactly as [`Twilight::handle_event`] does on it.
    pub fn handle(&mut self, event: &Event, now_ms: u64) -> (to_post: Option<Stats>)
        requires
            old(self).wf(),
        ensures
            final(self).wf(),
            exists|ev: MembershipEvent|
                {
                    &&& final(self).cache@ == #[trigger] cache_after(old(self).cache@, ev)
                    &&& final(self).stats == stats_after(old(self).stats, old(self).cache@, ev)
                    &&& final(self).gate == gate_after(
                        old(self).gate,
                        old(self).cache@,
                        ev,
                        now_ms,
                    )
                    &&& to_post == (if posts(old(self).gate, old(self).cache@, ev, now_ms) {
                        Some(final(self).stats)
                    } else {
                        None::<Stats>
                    })
                },
    {
        let abstract_event = classify(event);
        let to_post = self.handle_event(&abstract_event, now_ms);
        proof {
            assert(self.cache@ == cache_after(old(self).cache@, abstract_event));
        }
        to_post
    }

    /// Read access to the current statistics.
    pub fn stats(&self) -> (stats: &Stats)
        ensures
            *stats == self.stats,
    {
        &self.stats
    }
}

} // verus!

use vstd::prelude::*;
use crate::dispatch::{cache_after, gate_after, posts, stats_after};
use crate::event::MembershipEvent;
use crate::gate::MIN_INTERVAL_MS;
use crate::stats::Stats;
use crate::twilight::Twilight;

verus! {

/// The capability an adapter must expose so the generic posting machinery
/// can stay adapter-agnostic: read access to the statistics it maintains.
pub trait Handler: Sized {
    /// The statistics the handler currently holds, as a specification value.
    spec fn spec_stats(&self) -> Stats;

    /// Borrows the handler's current statistics.
    fn stats(&self) -> (stats: &Stats)
        ensures
            *stats == self.spec_stats(),
    ;
}

impl Handler for Twilight {
    open spec fn spec_stats(&self) -> Stats {
        self.stats
    }

    fn stats(&self) -> (stats: &Stats) {
        &self.stats
    }
}

/// Automates posting bot statistics to the reporting endpoint on membership
/// events, with at least the minimum interval between deliveries. It owns
/// the handler that turns raw adapter events into statistics updates.
#[must_use]
pub struct Autoposter<H> {
    /// The adapter-specific handler driving the statistics.
    pub handler: H,
}

impl<H: Handler> Autoposter<H> {
    /// Wraps a configured handler. Intervals below the fifteen-minute floor
    /// are a fatal construction-time error, which the precondition rules
    /// out; unverified callers test [`crate::gate::interval_is_valid`]
    /// first and abort on a refusal.
    pub fn new(handler: H, interval_ms: u64) -> (autoposter: Self)
        requires
            interval_ms >= MIN_INTERVAL_MS,
        ensures
            autoposter.handler == handler,
    {
        Autoposter { handler }
    }

    /// Borrows the handler.
    pub fn handler(&self) -> (handler: &H)
        ensures
            *handler == self.handler,
    {
        &self.handler
    }

    /// Borrows the handler's current statistics.
    pub fn stats(&self) -> (stats: &Stats)
        ensures
            *stats == self.handler.spec_stats(),
    {
        self.handler.stats()
    }
}

impl Autoposter<Twilight> {
    /// Builds an autoposter around a fresh built-in twilight handler that
    /// posts with at least `interval_ms` between deliveries.
    pub fn twilight(interval_ms: u64) -> (autoposter: Self)
        requires
            interval_ms >= MIN_INTERVAL_MS,
        ensures
            autoposter.handler.wf(),
            autoposter.handler.cache@ == Set::<u64>::empty(),
            autoposter.handler.stats == (Stats { server_count: Some(0usize), shard_count: None }),
            autoposter.handler.gate.min_interval_ms == interval_ms,
            autoposter.handler.gate.last_post_ms is None,
    {
        Autoposter::new(Twilight::new(interval_ms), interval_ms)
    }

    /// Feeds one raw twilight gateway event to the handler; see
    /// [`Twilight::handle`].
    pub fn handle(
        &mut self,
        event: &twilight_model::gateway::event::Event,
        now_ms: u64,
    ) -> (to_post: Option<Stats>)
        requires
            old(self).handler.wf(),
        ensures
            final(self).handler.wf(),
            exists|ev: MembershipEvent|
                {
                    &&& final(self).handler.cache@ == #[trigger] cache_after(
                        old(self).handler.cache@,
                        ev,
                    )
                    &&& final(self).handler.stats == stats_after(
                        old(self).handler.stats,
                        old(self).handler.cache@,
                        ev,
                    )
                    &&& final(self).handler.gate == gate_after(
                        old(self).handler.gate,
                        old(self).handler.cache@,
                        ev,
                        now_ms,
                    )
                    &&& to_post == (if posts(
                        old(self).handler.gate,
                        old(self).handler.cache@,
                        ev,
                        now_ms,
                    ) {
                        Some(final(self).handler.stats)
                    } else {
                        None::<Stats>
                    })
                },
    {
        self.handler.handle(event, now_ms)
    }
}

} // verus!

use vstd::prelude::*;

verus! {

/// Smallest interval, in milliseconds, that a gate may be configured with:
/// fifteen minutes. A hard policy floor, not a tunable.
pub const MIN_INTERVAL_MS: u64 = 900000;

/// The debouncing gate in front of the reporting endpoint. It remembers when
/// the last delivery was started and refuses a new one until the configured
/// minimum interval has fully elapsed.
#[derive(Clone, Copy, PartialEq, Eq, Debug)]
pub struct PostGate {
    /// Configured minimum interval between two deliveries, in milliseconds.
    pub min_interval_ms: u64,
    /// When the last permitted delivery was started, if any.
    pub last_post_ms: Option<u64>,
}

impl PostGate {
    /// A well-formed gate never allows an interval below the hard floor.
    pub open spec fn wf(self) -> bool {
        self.min_interval_ms >= MIN_INTERVAL_MS
    }

    /// A post gate is open at `now_ms` iff nothing has been posted yet, or the
    /// last post lies at least `min_interval_ms` in the past. A clock reading
    /// older than the last post (which a monotonic clock never produces)
    /// keeps it shut.
    pub open spec fn is_open(self, now_ms: u64) -> bool {
        match self.last_post_ms {
            None => true,
            Some(last) => now_ms >= last && now_ms - last >= self.min_interval_ms,
        }
    }

    /// Builds a gate that has not posted yet.
    pub fn new(min_interval_ms: u64) -> (g: Self)
        requires
            min_interval_ms >= MIN_INTERVAL_MS,
        ensures
            g.wf(),
            g.min_interval_ms == min_interval_ms,
            g.last_post_ms is None,
    {
        PostGate { min_interval_ms, last_post_ms: None }
    }

    /// Decides one post attempt at `now_ms`. An open post gate is
    /// stamped shut immediately — before the caller performs the outbound
    /// delivery — so attempts racing with a slow delivery are suppressed
    /// instead of firing twice.
    pub fn try_open(&mut self, now_ms: u64) -> (opened: bool)
        ensures
            opened == old(self).is_open(now_ms),
            final(self).min_interval_ms == old(self).min_interval_ms,
            opened ==> final(self).last_post_ms == Some(now_ms),
            !opened ==> *final(self) == *old(self),
    {
        let open_now = match self.last_post_ms {
            None => true,
            Some(last) => now_ms >= last && now_ms - last >= self.min_interval_ms,
        };
        if open_now {
            self.last_post_ms = Some(now_ms);
        }
        open_now
    }
}

/// True exactly when `interval_ms` reaches the floor that every constructor
/// of this crate enforces. Unverified callers test this before constructing
/// and fail fatally on a refusal, as the construction API demands.
pub fn interval_is_valid(interval_ms: u64) -> (ok: bool)
    ensures
        ok == (interval_ms >= MIN_INTERVAL_MS),
{
    interval_ms >= MIN_INTERVAL_MS
}

/// Once a delivery is stamped at time `t`, an attempt at time `u` gets
/// through exactly when the whole minimum interval has elapsed since `t`.
pub proof fn lemma_interval_enforced(g: PostGate, t: u64, u: u64)
    requires
        g.last_post_ms == Some(t),
    ensures
        g.is_open(u) == (u >= t && u - t >= g.min_interval_ms),
{
}

/// The debounce law: after a post goes through at `t1`, a second attempt
/// within the minimum interval is suppressed, and one made once the interval
/// has elapsed goes through again.
pub proof fn lemma_gate_debounces(g: PostGate, t1: u64, t2: u64, t3: u64)
    requires
        g.is_open(t1),
        t1 <= t2,
        t2 - t1 < g.min_interval_ms,
        t1 <= t3,
        t3 - t1 >= g.min_interval_ms,
    ensures
        ({
            let stamped = PostGate { min_interval_ms: g.min_interval_ms, last_post_ms: Some(t1) };
            !stamped.is_open(t2) && stamped.is_open(t3)
        }),
{
}

} // verus!

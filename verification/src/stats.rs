use vstd::prelude::*;

verus! {

/// The statistics record delivered to the reporting endpoint: how many
/// servers the bot currently serves and, optionally, how many gateway shards
/// it runs.
#[derive(Clone, Copy, PartialEq, Eq, Debug)]
pub struct Stats {
    /// Number of servers currently served, if known.
    pub server_count: Option<usize>,
    /// Number of gateway shards, if the adapter reports one.
    pub shard_count: Option<usize>,
}

impl Stats {
    /// The initial record: zero servers, no shard count.
    pub fn new() -> (s: Self)
        ensures
            s.server_count == Some(0usize),
            s.shard_count is None,
    {
        Stats { server_count: Some(0), shard_count: None }
    }

    /// Replaces the whole record with `other`.
    pub fn replace(&mut self, other: Stats)
        ensures
            *final(self) == other,
    {
        *self = other;
    }

    /// Sets the server count, leaving the shard count alone.
    pub fn set_server_count(&mut self, server_count: usize)
        ensures
            final(self).server_count == Some(server_count),
            final(self).shard_count == old(self).shard_count,
    {
        self.server_count = Some(server_count);
    }

    /// Sets the shard count, leaving the server count alone.
    pub fn set_shard_count(&mut self, shard_count: usize)
        ensures
            final(self).shard_count == Some(shard_count),
            final(self).server_count == old(self).server_count,
    {
        self.shard_count = Some(shard_count);
    }
}

} // verus!

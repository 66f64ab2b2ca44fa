use vstd::prelude::*;

verus! {

/// The abstract membership events the core works on. Every adapter reduces
/// its native wire events to exactly these kinds; everything it cannot
/// classify becomes `Ignored` and has no effect.
pub enum MembershipEvent {
    /// The complete current membership, delivered at (re)connection.
    Resync(Vec<u64>),
    /// One server joined.
    Add(u64),
    /// One server left.
    Remove(u64),
    /// Any event that does not touch membership.
    Ignored,
}

} // verus!

use vstd::prelude::*;

verus! {

pub const NANOS_PER_SECOND: u64 = 1_000_000_000;

/// How long an outbound packet stays deliverable, in seconds.
pub const PACKET_LIFETIME: u64 = 3600000;

/// A point in block time, as nanoseconds since the epoch.
#[derive(Clone, Copy, Debug, PartialEq, Eq, Structural)]
pub struct BlockTime {
    pub nanos: u64,
}

impl BlockTime {
    pub open spec fn spec_seconds(&self) -> int {
        self.nanos as int / NANOS_PER_SECOND as int
    }

    pub fn from_nanos(nanos: u64) -> (r: BlockTime)
        ensures
            r.nanos == nanos,
    {
        BlockTime { nanos }
    }

    pub fn from_seconds(seconds: u64) -> (r: BlockTime)
        requires
            seconds * NANOS_PER_SECOND <= u64::MAX,
        ensures
            r.nanos == seconds * NANOS_PER_SECOND,
    {
        BlockTime { nanos: seconds * NANOS_PER_SECOND }
    }

    /// Whole seconds since the epoch.
    pub fn seconds(&self) -> (r: u64)
        ensures
            r == self.spec_seconds(),
    {
        self.nanos / NANOS_PER_SECOND
    }

    /// The point `seconds` later.
    pub fn plus_seconds(&self, seconds: u64) -> (r: BlockTime)
        requires
            self.nanos + seconds * NANOS_PER_SECOND <= u64::MAX,
        ensures
            r.nanos == self.nanos + seconds * NANOS_PER_SECOND,
    {
        BlockTime { nanos: self.nanos + seconds * NANOS_PER_SECOND }
    }
}

/// The moment at which a packet sent at `now` expires.
pub fn get_timeout(now: BlockTime) -> (r: BlockTime)
    requires
        now.nanos + PACKET_LIFETIME * NANOS_PER_SECOND <= u64::MAX,
    ensures
        r.nanos == now.nanos + PACKET_LIFETIME * NANOS_PER_SECOND,
{
    now.plus_seconds(PACKET_LIFETIME)
}

/// Whole seconds elapsed from `start` to `end`.
pub fn get_seconds_diff(start: &BlockTime, end: &BlockTime) -> (r: u64)
    requires
        start.spec_seconds() <= end.spec_seconds(),
    ensures
        r == end.spec_seconds() - start.spec_seconds(),
{
    end.seconds() - start.seconds()
}

} // verus!

//! The clock.
//!
//! No operation reads the time by itself: its caller reads the host's clock
//! once and hands the reading in.

use vstd::prelude::*;

pub mod mock;

verus! {

/// A reading of the host's clock.
#[derive(Clone, Copy, Debug, PartialEq, Eq, Structural)]
pub struct Clock {
    /// Seconds since the Unix epoch, as the host reports them.
    pub unix_timestamp: i64,
}

/// The unsigned number with the same 64 bits as `unix_timestamp`: the number
/// itself where it is not negative, and 2^64 more than it where it is.
pub open spec fn spec_timestamp(unix_timestamp: i64) -> int {
    if unix_timestamp >= 0 {
        unix_timestamp as int
    } else {
        unix_timestamp + 0x1_0000_0000_0000_0000
    }
}

/// Returns the current unix timestamp.
pub fn timestamp(clock: &Clock) -> (now: u64)
    ensures
        now == spec_timestamp(clock.unix_timestamp),
{
    let seconds: i64 = clock.unix_timestamp;
    if seconds >= 0 {
        seconds as u64
    } else {
        let below: i64 = -(seconds + 1);
        u64::MAX - (below as u64)
    }
}

} // verus!

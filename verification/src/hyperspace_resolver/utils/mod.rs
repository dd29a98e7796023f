//! The clock as the floor-price resolver sees it.

use vstd::prelude::*;

use crate::common::sys::Clock;

verus! {

/// Returns the current unix timestamp.
pub fn unix_timestamp(clock: &Clock) -> (now: i64)
    ensures
        now == clock.unix_timestamp,
{
    clock.unix_timestamp
}

} // verus!

//! A clock that shows what it is told to.

use vstd::prelude::*;

use crate::common::sys::{spec_timestamp, Clock};

verus! {

/// Mock timestamp for use in tests: a clock that reads `ts`.
pub fn timestamp(ts: u64) -> (clock: Clock)
    ensures
        spec_timestamp(clock.unix_timestamp) == ts,
{
    crate::common::sys::mock::timestamp(ts)
}

} // verus!

//! A clock that shows what it is told to.

use vstd::prelude::*;

use crate::common::sys::{spec_timestamp, Clock};

verus! {

/// Mock timestamp for use in tests: a clock that reads `ts`.
pub fn timestamp(ts: u64) -> (clock: Clock)
    ensures
        spec_timestamp(clock.unix_timestamp) == ts,
{
    if ts <= 0x7fff_ffff_ffff_ffff {
        Clock { unix_timestamp: ts as i64 }
    } else {
        let above: u64 = u64::MAX - ts;
        Clock { unix_timestamp: -(above as i64) - 1 }
    }
}

} // verus!

//! What one user has put into one market.

use vstd::prelude::*;

use crate::common::pubkey::{zero_bytes, Pubkey, PUBKEY_BYTES};

verus! {

/// Tracks the user's positions for a given market.
#[derive(Clone, Copy, Debug)]
pub struct UserPosition {
    /// The market for which we track positions.
    pub market: Pubkey,
    /// The amount the user has deposited into the yes side.
    pub yes_amount: u64,
    /// The amount the user has deposited into the no side.
    pub no_amount: u64,
}

impl UserPosition {
    /// The number of bytes that a stored position takes.
    pub const LEN: usize = PUBKEY_BYTES + (2 * 8);

    /// The position with both amounts taken out.
    pub open spec fn cleared(self) -> UserPosition {
        UserPosition { yes_amount: 0, no_amount: 0, ..self }
    }
}

impl Default for UserPosition {
    /// An empty position on no market.
    fn default() -> (res: UserPosition)
        ensures
            res.market@ == zero_bytes(),
            res.yes_amount == 0,
            res.no_amount == 0,
    {
        UserPosition { market: Pubkey::default(), yes_amount: 0, no_amount: 0 }
    }
}

} // verus!

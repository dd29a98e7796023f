//! The protocol-wide settings.

use vstd::prelude::*;

use crate::common::pubkey::{zero_bytes, Pubkey, PUBKEY_BYTES};
use crate::escrow::state::bps::Bps;

verus! {

/// The program global state account.
#[derive(Clone, Copy, Debug)]
pub struct GlobalState {
    /// The owner of the global state account.
    pub authority: Pubkey,
    /// The wallet which will own the protocol fee.
    pub fee_wallet: Pubkey,
    /// The protocol fee (in basis points).
    pub protocol_fee_bps: Bps,
}

impl GlobalState {
    /// The number of bytes that the stored settings take.
    pub const LEN: usize = (2 * PUBKEY_BYTES) + Bps::LEN;
}

impl Default for GlobalState {
    /// Settings with no authority, no fee wallet and no fee.
    fn default() -> (res: GlobalState)
        ensures
            res.authority@ == zero_bytes(),
            res.fee_wallet@ == zero_bytes(),
            res.protocol_fee_bps@ == 0,
    {
        GlobalState {
            authority: Pubkey::default(),
            fee_wallet: Pubkey::default(),
            protocol_fee_bps: Bps::default(),
        }
    }
}

} // verus!

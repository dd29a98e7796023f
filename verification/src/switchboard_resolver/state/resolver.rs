//! The feed that a market is settled by.

use vstd::prelude::*;

use crate::common::pubkey::{zero_bytes, Pubkey, PUBKEY_BYTES};

verus! {

/// Metadata account for resolving a market based on a Switchboard feed.
#[derive(Clone, Copy, Debug)]
pub struct Resolver {
    /// The market to be resolved.
    pub market: Pubkey,
    /// The Switchboard feed to use to resolve.
    pub feed: Pubkey,
}

impl Resolver {
    /// The number of bytes that a stored resolver takes.
    pub const LEN: usize = PUBKEY_BYTES + PUBKEY_BYTES;
}

impl Default for Resolver {
    /// A resolver for no market, by no feed.
    fn default() -> (res: Resolver)
        ensures
            res.market@ == zero_bytes(),
            res.feed@ == zero_bytes(),
    {
        Resolver { market: Pubkey::default(), feed: Pubkey::default() }
    }
}

} // verus!

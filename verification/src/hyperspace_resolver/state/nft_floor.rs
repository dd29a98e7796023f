//! The floor price that a market is measured against.

use vstd::prelude::*;
use vstd::string::StringSliceAdditionalSpecFns;

use crate::common::pubkey::{zero_bytes, Pubkey, PUBKEY_BYTES};

verus! {

/// Metadata account for resolving a market based on NFT floor price.
///
/// The market will be resolved to yes if the NFT floor price once the
/// market has expired is greater than or equal to `floor_price`.
#[derive(Clone, Debug)]
pub struct NftFloor {
    /// The public key of the resolver authority.
    pub authority: Pubkey,
    /// The market to be resolved.
    pub market: Pubkey,
    /// Whether the resolver has been acknowledged by the authority.
    pub acknowledged: bool,
    /// The floor price in lamports to compare to when resolving.
    pub floor_price: u64,
    /// The project ID of the collection.
    pub project_id: String,
}

/// The number of bytes that a stored [`NftFloor`] with a project ID of
/// `project_id_len` bytes takes: two addresses, a flag, the price, and the
/// project ID behind its four-byte length.
pub open spec fn spec_account_size(project_id_len: nat) -> nat {
    32 + 32 + 1 + 8 + 4 + project_id_len
}

impl NftFloor {
    /// Returns the number of bytes that the account with this project ID
    /// takes.
    pub fn account_size(project_id: &str) -> (size: usize)
        requires
            spec_account_size(project_id.spec_bytes().len()) <= usize::MAX,
        ensures
            size == spec_account_size(project_id.spec_bytes().len()),
    {
        // The authority, the market, the flag, the price, and the project ID
        // behind four bytes for its length.
        PUBKEY_BYTES + PUBKEY_BYTES + 1 + 8 + 4 + project_id.as_bytes().len()
    }
}

impl Default for NftFloor {
    /// A floor of zero for no market, with no project.
    fn default() -> (res: NftFloor)
        ensures
            res.authority@ == zero_bytes(),
            res.market@ == zero_bytes(),
            !res.acknowledged,
            res.floor_price == 0,
            res.project_id@.len() == 0,
    {
        NftFloor {
            authority: Pubkey::default(),
            market: Pubkey::default(),
            acknowledged: false,
            floor_price: 0,
            project_id: String::new(),
        }
    }
}

} // verus!

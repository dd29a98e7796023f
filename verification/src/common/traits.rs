//! What accounts have in common.

use vstd::prelude::*;

use crate::common::pubkey::Pubkey;

verus! {

/// Something that has an address.
pub trait KeyRef {
    /// The address.
    spec fn key(&self) -> Pubkey;

    /// Get a reference to the pubkey of an account.
    fn key_ref(&self) -> (key: &Pubkey)
        ensures
            *key == self.key(),
    ;
}

impl KeyRef for Pubkey {
    open spec fn key(&self) -> Pubkey {
        *self
    }

    #[inline]
    fn key_ref(&self) -> (key: &Pubkey) {
        self
    }
}

} // verus!

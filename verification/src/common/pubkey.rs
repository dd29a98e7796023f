//! Account addresses.

use vstd::prelude::*;
use vstd::std_specs::cmp::PartialEqSpecImpl;

verus! {

/// Number of bytes in a pubkey.
pub const PUBKEY_BYTES: usize = 32;

/// The address of an account: 32 bytes.
#[derive(Debug, Clone, Copy, Eq, Hash)]
pub struct Pubkey(pub [u8; 32]);

/// Thirty-two zero bytes: what the default address holds.
pub open spec fn zero_bytes() -> Seq<u8> {
    Seq::new(32, |i: int| 0u8)
}

impl View for Pubkey {
    type V = Seq<u8>;

    /// The bytes of the address, first to last.
    open spec fn view(&self) -> Seq<u8> {
        self.0@
    }
}

impl Pubkey {
    /// The address made of the given bytes.
    pub fn new_from_array(bytes: [u8; 32]) -> (res: Pubkey)
        ensures
            res@ == bytes@,
    {
        Pubkey(bytes)
    }

    /// The bytes of the address.
    pub fn to_bytes(self) -> (bytes: [u8; 32])
        ensures
            bytes@ == self@,
    {
        self.0
    }
}

impl Default for Pubkey {
    /// The address made of zero bytes.
    fn default() -> (res: Pubkey)
        ensures
            res@ == zero_bytes(),
    {
        let res = Pubkey([0u8; 32]);
        assert(res@ =~= zero_bytes());
        res
    }
}

impl PartialEq for Pubkey {
    /// Two addresses are equal when all their bytes are.
    fn eq(&self, other: &Pubkey) -> (res: bool) {
        let mut i: usize = 0;
        while i < 32
            invariant
                i <= 32,
                forall|j: int| 0 <= j < i ==> self.0[j] == other.0[j],
            decreases 32 - i,
        {
            if self.0[i] != other.0[i] {
                return false;
            }
            i += 1;
        }
        proof {
            assert(self@ =~= other@);
            lemma_same_bytes_same_key(*self, *other);
        }
        true
    }
}

impl PartialEqSpecImpl for Pubkey {
    open spec fn obeys_eq_spec() -> bool {
        true
    }

    open spec fn eq_spec(&self, other: &Pubkey) -> bool {
        *self == *other
    }
}

/// Addresses with the same bytes are the same address.
pub proof fn lemma_same_bytes_same_key(a: Pubkey, b: Pubkey)
    requires
        a@ == b@,
    ensures
        a == b,
{
    assert(a.0 =~= b.0);
}

} // verus!

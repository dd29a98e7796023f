//! The protocol fee rate as the escrow program stores it.

use vstd::prelude::*;

use crate::common::bps::{lemma_spec_new_view, spec_fee, Bps as CommonBps};

verus! {

/// Basis points.
///
/// The value can range from `0` (0%) to `10000` (100%).
#[derive(Debug, Clone, Copy, PartialEq, Eq, Structural, PartialOrd, Ord, Hash)]
pub struct Bps {
    bps: u16,
}

impl View for Bps {
    type V = nat;

    /// The number of basis points.
    closed spec fn view(&self) -> nat {
        self.bps as nat
    }
}

impl Default for Bps {
    /// Zero basis points.
    fn default() -> (res: Bps)
        ensures
            res@ == 0,
    {
        Bps { bps: 0 }
    }
}

impl Bps {
    /// The number of bytes that a stored rate takes.
    pub const LEN: usize = 2;

    /// The maximum value that a [`Bps`] can be.
    pub const MAX: u16 = CommonBps::MAX;

    #[verifier::type_invariant]
    spec fn in_range(self) -> bool {
        self.bps <= CommonBps::MAX
    }

    /// The basis points that hold `bps`.
    pub closed spec fn spec_new(bps: u16) -> Bps {
        Bps { bps }
    }

    /// Creates a [`Bps`] if the given value is within range.
    #[must_use]
    #[inline]
    pub fn new(bps: u16) -> (res: Option<Bps>)
        ensures
            bps <= Bps::MAX ==> res == Some(Bps::spec_new(bps)) && res.unwrap()@ == bps,
            bps > Bps::MAX ==> res.is_none(),
    {
        if bps <= CommonBps::MAX {
            Some(Bps { bps })
        } else {
            None
        }
    }

    /// Returns the value as a `u16`.
    #[must_use]
    #[inline]
    pub fn get(self) -> (bps: u16)
        ensures
            bps == self@,
            bps <= Bps::MAX,
    {
        proof {
            use_type_invariant(&self);
        }
        self.bps
    }

    /// Returns the fee for the given amount, rounding up in the case of
    /// lost precision.
    #[must_use]
    #[inline]
    pub fn fee(self, amount: u64) -> (fee: u64)
        ensures
            fee == spec_fee(amount as int, self@ as int),
            fee <= amount,
    {
        self.to_common().fee(amount)
    }

    /// Returns the fee for the given amount, rounding up in the case of
    /// lost precision, and the amount received after subtracting the fee.
    #[must_use]
    #[inline]
    pub fn fee_received(self, amount: u64) -> (res: (u64, u64))
        ensures
            res.0 == spec_fee(amount as int, self@ as int),
            res.0 + res.1 == amount,
    {
        self.to_common().fee_received(amount)
    }

    /// The same rate as the shared fee calculator takes it.
    fn to_common(self) -> (res: CommonBps)
        ensures
            res@ == self@,
    {
        proof {
            use_type_invariant(&self);
            lemma_spec_new_view(self.bps);
        }
        CommonBps::new_unchecked(self.bps)
    }
}

/// A value built by [`Bps::spec_new`] holds the basis points it was given.
pub broadcast proof fn lemma_rate_view(bps: u16)
    ensures
        #[trigger] Bps::spec_new(bps)@ == bps,
{
}

} // verus!

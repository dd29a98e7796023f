//! Basis points and the fee they charge on an amount.

use vstd::prelude::*;
use vstd::arithmetic::div_mod::{lemma_hoist_over_denominator, lemma_mod_multiples_vanish};

use crate::common::math::{div_ceil, spec_div_ceil, unchecked_add, unchecked_mul, unchecked_sub};

verus! {

/// The number of basis points in the whole: 10000 bps are 100%.
pub const DIVISOR: u64 = 10_000;

/// The fee that `bps` basis points charge on `amount`: the exact product
/// `amount * bps / 10000`, rounded up to the next integer.
pub open spec fn spec_fee(amount: int, bps: int) -> int {
    spec_div_ceil(amount * bps, DIVISOR as int)
}

/// Basis points.
///
/// The value can range from `0` (0%) to `10000` (100%).
#[derive(Debug, Clone, Copy, PartialEq, Eq, Structural, PartialOrd, Ord, Hash)]
pub struct Bps {
    bps: u16,
}

impl View for Bps {
    type V = nat;

    /// The number of basis points.
    closed spec fn view(&self) -> nat {
        self.bps as nat
    }
}

impl Default for Bps {
    /// Zero basis points.
    fn default() -> (res: Bps)
        ensures
            res@ == 0,
    {
        Bps { bps: 0 }
    }
}

impl Bps {
    /// The maximum value that a [`Bps`] can be.
    pub const MAX: u16 = 10_000;

    #[verifier::type_invariant]
    spec fn in_range(self) -> bool {
        self.bps <= Bps::MAX
    }

    /// The basis points that hold `bps`.
    pub closed spec fn spec_new(bps: u16) -> Bps {
        Bps { bps }
    }

    /// Creates a [`Bps`] from a value that is known to be within range.
    #[must_use]
    #[inline]
    pub fn new_unchecked(bps: u16) -> (res: Bps)
        requires
            bps <= Bps::MAX,
        ensures
            res == Bps::spec_new(bps),
            res@ == bps,
    {
        Bps { bps }
    }

    /// Creates a [`Bps`] if the given value is within range.
    #[must_use]
    #[inline]
    pub fn new(bps: u16) -> (res: Option<Bps>)
        ensures
            bps <= Bps::MAX ==> res == Some(Bps::spec_new(bps)) && res.unwrap()@ == bps,
            bps > Bps::MAX ==> res.is_none(),
    {
        if bps <= Bps::MAX {
            Some(Bps { bps })
        } else {
            None
        }
    }

    /// Returns the value as a `u16`.
    #[must_use]
    #[inline]
    pub fn get(self) -> (bps: u16)
        ensures
            bps == self@,
            bps <= Bps::MAX,
    {
        proof {
            use_type_invariant(&self);
        }
        self.bps
    }

    /// Returns the fee for the given amount, rounding up in the case of
    /// lost precision.
    #[must_use]
    #[inline]
    pub fn fee(self, amount: u64) -> (fee: u64)
        ensures
            fee == spec_fee(amount as int, self@ as int),
            fee <= amount,
    {
        let bps: u64 = self.get() as u64;

        let q: u64 = amount / DIVISOR;
        let r: u64 = amount % DIVISOR;

        proof {
            lemma_fee_split(amount, bps);
        }
        let a: u64 = unchecked_mul(q, bps);
        let b: u64 = unchecked_mul(r, bps);
        // Round up in the case of lost precision.
        let c: u64 = div_ceil(b, DIVISOR);

        unchecked_add(a, c)
    }

    /// Returns the fee for the given amount, rounding up in the case of
    /// lost precision, and the amount received after subtracting the fee.
    #[must_use]
    #[inline]
    pub fn fee_received(self, amount: u64) -> (res: (u64, u64))
        ensures
            res.0 == spec_fee(amount as int, self@ as int),
            res.0 + res.1 == amount,
    {
        let fee: u64 = self.fee(amount);
        let received: u64 = unchecked_sub(amount, fee);

        (fee, received)
    }
}

impl From<u8> for Bps {
    /// The basis points that hold `bps`: every `u8` is within range.
    #[inline]
    fn from(bps: u8) -> (res: Bps) {
        Bps { bps: bps as u16 }
    }
}

impl vstd::std_specs::convert::FromSpecImpl<u8> for Bps {
    open spec fn obeys_from_spec() -> bool {
        true
    }

    open spec fn from_spec(bps: u8) -> Bps {
        Bps::spec_new(bps as u16)
    }
}

/// A value built by [`Bps::spec_new`] holds the basis points it was given.
pub broadcast proof fn lemma_spec_new_view(bps: u16)
    ensures
        #[trigger] Bps::spec_new(bps)@ == bps,
{
}

/// The fee can be computed on the quotient and the remainder of the amount
/// by 10000 apart, with no product that leaves `u64`.
pub proof fn lemma_fee_split(amount: u64, bps: u64)
    requires
        bps <= DIVISOR,
    ensures
        (amount / DIVISOR) * bps <= amount,
        (amount % DIVISOR) * bps <= u64::MAX,
        spec_fee(amount as int, bps as int) == (amount / DIVISOR) * bps + spec_div_ceil(
            (amount % DIVISOR) * bps,
            DIVISOR as int,
        ),
        0 <= spec_fee(amount as int, bps as int) <= amount,
{
    let d = DIVISOR as int;
    let q = (amount / DIVISOR) as int;
    let r = (amount % DIVISOR) as int;
    let a = q * bps;
    let b = r * bps;
    assert(amount == d * q + r);
    assert(0 <= a <= q * d && 0 <= b <= r * d && b < d * d) by (nonlinear_arith)
        requires
            0 <= q,
            0 <= r < d,
            0 <= bps <= d,
            a == q * bps,
            b == r * bps,
    ;
    assert(amount * bps == b + a * d) by (nonlinear_arith)
        requires
            amount == d * q + r,
            a == q * bps,
            b == r * bps,
    ;
    lemma_hoist_over_denominator(b, a, d as nat);
    lemma_mod_multiples_vanish(a, b, d);
    assert(d * a + b == b + a * d) by (nonlinear_arith);
    assert((amount * bps) / d == b / d + a);
    assert((amount * bps) % d == b % d);
    assert(b / d <= r && (b % d != 0 ==> b / d < r)) by (nonlinear_arith)
        requires
            0 <= b <= r * d,
            d > 0,
    ;
}

/// The fee is what a multiplication in 128 bits and a division that rounds up
/// give: the product fits in 128 bits, and the fee is its quotient by 10000,
/// and one more where the division leaves a remainder; that sum fits in 64
/// bits.
pub proof fn lemma_fee_matches_wide_reference(amount: u64, bps: u16)
    requires
        bps <= Bps::MAX,
    ensures
        amount * bps <= u128::MAX,
        spec_fee(amount as int, bps as int) == (amount * bps) / 10_000 + (if (amount * bps)
            % 10_000 != 0 {
            1int
        } else {
            0int
        }),
        0 <= spec_fee(amount as int, bps as int) <= u64::MAX,
{
    assert(0 <= amount * bps <= u64::MAX * 10_000) by (nonlinear_arith)
        requires
            0 <= amount <= u64::MAX,
            0 <= bps <= 10_000,
    ;
    lemma_fee_split(amount, bps as u64);
}

/// The fee never exceeds the amount it is taken from.
pub proof fn lemma_fee_at_most_amount(amount: u64, bps: u16)
    requires
        bps <= Bps::MAX,
    ensures
        0 <= spec_fee(amount as int, bps as int) <= amount,
{
    lemma_fee_split(amount, bps as u64);
}

} // verus!

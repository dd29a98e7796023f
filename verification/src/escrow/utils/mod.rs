//! Token transfers as orders for the host to carry out, number
//! conversions, and the clock as the escrow program sees it.

use vstd::prelude::*;

use crate::common::pubkey::Pubkey;
use crate::common::sys::{spec_timestamp, Clock};
use crate::common::traits::KeyRef;
use crate::escrow::error::ErrorCode;

pub mod mock;

verus! {

/// What the program reads of a token account.
#[derive(Clone, Copy, Debug)]
pub struct TokenAccount {
    /// The address of the account.
    pub key: Pubkey,
    /// The token that the account holds.
    pub mint: Pubkey,
    /// The owner of the account.
    pub owner: Pubkey,
}

impl KeyRef for TokenAccount {
    open spec fn key(&self) -> Pubkey {
        self.key
    }

    #[inline]
    fn key_ref(&self) -> (key: &Pubkey) {
        &self.key
    }
}

/// An order to move tokens from one account to another.
///
/// The operations hand these out; the host carries them out, all of an
/// operation's transfers or none.
#[derive(Clone, Copy, Debug)]
pub struct Transfer {
    /// The account that the tokens leave.
    pub from: Pubkey,
    /// The account that the tokens reach.
    pub to: Pubkey,
    /// The authority over the account that the tokens leave.
    pub authority: Pubkey,
    /// The number of tokens to move.
    pub amount: u64,
    /// The bump seed of the authority where the program itself signs for
    /// it; `None` where the authority has signed the transaction.
    pub signer_bump: Option<u8>,
}

/// A transfer that the authority has signed for itself.
pub fn non_signer_transfer(from: &Pubkey, to: &Pubkey, authority: &Pubkey, amount: u64) -> (res:
    Transfer)
    ensures
        res == (Transfer {
            from: *from,
            to: *to,
            authority: *authority,
            amount,
            signer_bump: None,
        }),
{
    Transfer { from: *from, to: *to, authority: *authority, amount, signer_bump: None }
}

/// A transfer for which the program signs, as the authority that its seeds
/// and `bump` derive.
pub fn signer_transfer(
    from: &Pubkey,
    to: &Pubkey,
    authority: &Pubkey,
    bump: u8,
    amount: u64,
) -> (res: Transfer)
    ensures
        res == (Transfer {
            from: *from,
            to: *to,
            authority: *authority,
            amount,
            signer_bump: Some(bump),
        }),
{
    Transfer { from: *from, to: *to, authority: *authority, amount, signer_bump: Some(bump) }
}

/// Widens a 64-bit amount. This cannot fail.
pub fn to_u128(value: u64) -> (res: Result<u128, ErrorCode>)
    ensures
        res == Ok::<u128, ErrorCode>(value as u128),
{
    Ok(value as u128)
}

/// Narrows an amount to 64 bits, failing with
/// [`ErrorCode::ConversionFailure`] where it does not fit.
pub fn to_u64(value: u128) -> (res: Result<u64, ErrorCode>)
    ensures
        value <= u64::MAX ==> res == Ok::<u64, ErrorCode>(value as u64),
        value > u64::MAX ==> res == Err::<u64, ErrorCode>(ErrorCode::ConversionFailure),
{
    if value <= u64::MAX as u128 {
        Ok(value as u64)
    } else {
        Err(ErrorCode::ConversionFailure)
    }
}

/// Returns the current unix timestamp.
pub fn unix_timestamp(clock: &Clock) -> (now: u64)
    ensures
        now == spec_timestamp(clock.unix_timestamp),
{
    crate::common::sys::timestamp(clock)
}

} // verus!

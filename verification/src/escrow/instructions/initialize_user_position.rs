//! Opening a user's position in a market.

use vstd::prelude::*;

use crate::common::pubkey::Pubkey;
use crate::escrow::error::ErrorCode;
use crate::escrow::state::market::Market;
use crate::escrow::state::user_position::UserPosition;

verus! {

/// Initializes a [UserPosition] account for the user.
#[derive(Clone, Copy, Debug)]
pub struct InitializeUserPosition {
    /// The user whose position it is.
    pub user: Pubkey,
    /// Who pays for the account.
    pub payer: Pubkey,
    /// The address of the market.
    pub market_key: Pubkey,
    /// The market.
    pub market: Market,
    /// The position to initialize.
    pub user_position: UserPosition,
}

/// Opens the user's position: an empty position on the market. Nothing else
/// is touched, and the request is never refused: that a user has one
/// position per market is for the host's storage to see to.
pub fn handler(ctx: &mut InitializeUserPosition) -> (res: Result<(), ErrorCode>)
    ensures
        res == Ok::<(), ErrorCode>(()),
        *final(ctx) == (InitializeUserPosition {
            user_position: UserPosition {
                market: old(ctx).market_key,
                yes_amount: 0,
                no_amount: 0,
            },
            ..*old(ctx)
        }),
{
    ctx.user_position.market = ctx.market_key;
    ctx.user_position.yes_amount = 0;
    ctx.user_position.no_amount = 0;

    Ok(())
}

} // verus!

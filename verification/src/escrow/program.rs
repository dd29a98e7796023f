//! The escrow program's entry points, one for each operation.
//!
//! Each takes the accounts that the operation names, its parameters and,
//! where the operation depends on the time, the current timestamp. An
//! operation that is refused leaves the accounts as they were.

use vstd::prelude::*;

use crate::escrow::error::ErrorCode;
use crate::escrow::instructions;
use crate::escrow::instructions::claim::{claimed, Claim};
use crate::escrow::instructions::deposit::{deposited, Deposit, DepositParams};
use crate::escrow::instructions::initialize_global_state::{
    global_state_initialized, InitializeGlobalState, InitializeGlobalStateParams,
};
use crate::escrow::instructions::initialize_market::{
    market_initialized, EscrowStep, InitializeMarket, InitializeMarketParams,
};
use crate::escrow::instructions::initialize_user_position::InitializeUserPosition;
use crate::escrow::instructions::resolver_acknowledge::{acknowledged, ResolverAcknowledge};
use crate::escrow::instructions::set_global_state::{
    global_state_set, SetGlobalState, SetGlobalStateParams,
};
use crate::escrow::instructions::update_outcome::{
    outcome_updated, UpdateOutcome, UpdateOutcomeParams,
};
use crate::escrow::instructions::withdraw::{withdrawn, Withdraw};
use crate::escrow::state::user_position::UserPosition;
use crate::escrow::utils::Transfer;

verus! {

/// Opens a market at `now` and plans the set-up of its two escrows.
pub fn initialize_market(
    ctx: &mut InitializeMarket,
    params: InitializeMarketParams,
    now: u64,
) -> (res: Result<Vec<EscrowStep>, ErrorCode>)
    ensures
        market_initialized(*old(ctx), params, now, *final(ctx), res),
{
    instructions::initialize_market::handler(ctx, params, now)
}

/// Opens a user's position in a market.
pub fn initialize_user_position(ctx: &mut InitializeUserPosition) -> (res: Result<(), ErrorCode>)
    ensures
        res == Ok::<(), ErrorCode>(()),
        *final(ctx) == (InitializeUserPosition {
            user_position: UserPosition {
                market: old(ctx).market_key,
                yes_amount: 0,
                no_amount: 0,
            },
            ..*old(ctx)
        }),
{
    instructions::initialize_user_position::handler(ctx)
}

/// Deposits into a market at `now`.
pub fn deposit(ctx: &mut Deposit, params: DepositParams, now: u64) -> (res: Result<
    Vec<Transfer>,
    ErrorCode,
>)
    ensures
        deposited(*old(ctx), params, now, *final(ctx), res),
{
    instructions::deposit::handler(ctx, params, now)
}

/// Sets the outcome of a market at `now`.
pub fn update_outcome(ctx: &mut UpdateOutcome, params: UpdateOutcomeParams, now: u64) -> (res:
    Result<(), ErrorCode>)
    ensures
        final(ctx).resolver == old(ctx).resolver,
        outcome_updated(
            old(ctx).market,
            old(ctx).resolver,
            now,
            params.outcome,
            final(ctx).market,
            res,
        ),
{
    instructions::update_outcome::handler(ctx, params, now)
}

/// Returns a user's deposits out of a void market at `now`.
pub fn withdraw(ctx: &mut Withdraw, now: u64) -> (res: Result<Vec<Transfer>, ErrorCode>)
    ensures
        withdrawn(*old(ctx), now, *final(ctx), res),
{
    instructions::withdraw::handler(ctx, now)
}

/// Sets up the protocol-wide settings.
pub fn initialize_global_state(
    ctx: &mut InitializeGlobalState,
    params: InitializeGlobalStateParams,
) -> (res: Result<(), ErrorCode>)
    ensures
        global_state_initialized(*old(ctx), params, *final(ctx), res),
{
    instructions::initialize_global_state::handler(ctx, params)
}

/// Pays out a user's winnings at `now`.
pub fn claim(ctx: &mut Claim, now: u64) -> (res: Result<Vec<Transfer>, ErrorCode>)
    ensures
        claimed(*old(ctx), now, *final(ctx), res),
{
    instructions::claim::handler(ctx, now)
}

/// Changes the protocol-wide settings.
pub fn set_global_state(ctx: &mut SetGlobalState, params: SetGlobalStateParams) -> (res: Result<
    (),
    ErrorCode,
>)
    ensures
        global_state_set(*old(ctx), params, *final(ctx), res),
{
    instructions::set_global_state::handler(ctx, params)
}

/// Marks a market as acknowledged by its resolver.
pub fn resolver_acknowledge(ctx: &mut ResolverAcknowledge) -> (res: Result<(), ErrorCode>)
    ensures
        acknowledged(*old(ctx), *final(ctx), res),
{
    instructions::resolver_acknowledge::handler(ctx)
}

} // verus!

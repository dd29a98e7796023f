//! Settling a market by the floor price.

use vstd::prelude::*;

use crate::common::pubkey::Pubkey;
use crate::escrow::instructions::update_outcome::{outcome_updated, update_outcome};
use crate::escrow::instructions::update_state::{UpdateState, UpdateStateParams};
use crate::escrow::state::market::Market;
use crate::escrow::state::outcome::Outcome;
use crate::hyperspace_resolver::error::{ErrorCode, ResolverError};

verus! {

/// Parameters for resolving by floor price.
#[derive(Clone, Copy, Debug)]
pub struct ResolveNftFloorParams {
    /// The current floor price in lamports.
    pub current_floor_price: u64,
}

/// Resolves a market by the floor price.
///
/// Of the resolver its address is read, and the market, the authority and
/// the price that it names.
#[derive(Clone, Copy, Debug)]
pub struct ResolveNftFloor {
    /// The address of the resolver.
    pub resolver_key: Pubkey,
    /// The market that the resolver names.
    pub resolver_market: Pubkey,
    /// The authority that the resolver names.
    pub resolver_authority: Pubkey,
    /// The floor price in lamports that the resolver compares to.
    pub resolver_floor_price: u64,
    /// The bump seed of the resolver's address, where the host has found it.
    pub resolver_bump: Option<u8>,
    /// The address of the market to resolve.
    pub market_key: Pubkey,
    /// The market to resolve.
    pub market: Market,
    /// The resolver authority.
    pub authority: Pubkey,
}

/// The outcome that a floor price decides: yes if the current price is at
/// or above the floor, no if it is below.
pub open spec fn floor_outcome(current_floor_price: u64, floor_price: u64) -> Outcome {
    if current_floor_price >= floor_price {
        Outcome::Yes
    } else {
        Outcome::No
    }
}

/// The market after it was resolved by the floor price at `now`, or the
/// reason why that failed.
///
/// The market and the signer must be those that the resolver names, and the
/// market must have expired. The outcome is then put to the escrow program
/// in the resolver's name.
pub open spec fn resolve_nft_floor(
    ctx: ResolveNftFloor,
    params: ResolveNftFloorParams,
    now: u64,
) -> Result<Market, ResolverError> {
    if ctx.check_accounts() is Err {
        Err(ResolverError::Resolver(ctx.check_accounts()->Err_0))
    } else if ctx.market.expiry_ts > now {
        Err(ResolverError::Resolver(ErrorCode::TimestampNotPassed))
    } else if ctx.resolver_bump is None {
        Err(ResolverError::Resolver(ErrorCode::MissingBumpSeed))
    } else {
        match update_outcome(
            ctx.market,
            ctx.resolver_key,
            now,
            floor_outcome(params.current_floor_price, ctx.resolver_floor_price),
        ) {
            Ok(market) => Ok(market),
            Err(e) => Err(ResolverError::Escrow(e)),
        }
    }
}

/// What resolving does and returns: on success the market is that of
/// [`resolve_nft_floor`]; on failure nothing is touched and the error is
/// its error.
pub open spec fn resolved(
    before: ResolveNftFloor,
    params: ResolveNftFloorParams,
    now: u64,
    after: ResolveNftFloor,
    res: Result<(), ResolverError>,
) -> bool {
    match resolve_nft_floor(before, params, now) {
        Ok(market) => after == (ResolveNftFloor { market, ..before }) && res == Ok::<
            (),
            ResolverError,
        >(()),
        Err(e) => after == before && res == Err::<(), ResolverError>(e),
    }
}

impl ResolveNftFloor {
    /// Whether the accounts are those that the resolver names: first the
    /// market, then the authority.
    pub open spec fn check_accounts(&self) -> Result<(), ErrorCode> {
        if self.market_key != self.resolver_market {
            Err(ErrorCode::IncorrectMarket)
        } else if self.authority != self.resolver_authority {
            Err(ErrorCode::IncorrectAuthority)
        } else {
            Ok(())
        }
    }

    /// Checks that the accounts are those that the resolver names.
    pub fn validate(&self) -> (res: Result<(), ErrorCode>)
        ensures
            res == self.check_accounts(),
    {
        if self.market_key != self.resolver_market {
            return Err(ErrorCode::IncorrectMarket);
        }
        if self.authority != self.resolver_authority {
            return Err(ErrorCode::IncorrectAuthority);
        }
        Ok(())
    }

    /// Resolves the market: puts `outcome` to the escrow program at `now`,
    /// in the resolver's name.
    pub fn resolve(&mut self, outcome: Outcome, now: u64) -> (res: Result<
        (),
        crate::escrow::error::ErrorCode,
    >)
        ensures
            *final(self) == (ResolveNftFloor { market: final(self).market, ..*old(self) }),
            outcome_updated(
                old(self).market,
                old(self).resolver_key,
                now,
                outcome,
                final(self).market,
                res,
            ),
    {
        let mut accounts = UpdateState { market: self.market, resolver: self.resolver_key };
        let params = UpdateStateParams { outcome };
        let res = crate::escrow::instructions::update_state::handler(&mut accounts, params, now);
        self.market = accounts.market;
        res
    }
}

/// Resolves the market by the floor price at `now`. A failed request
/// changes nothing.
pub fn handler(ctx: &mut ResolveNftFloor, params: ResolveNftFloorParams, now: u64) -> (res: Result<
    (),
    ResolverError,
>)
    ensures
        resolved(*old(ctx), params, now, *final(ctx), res),
{
    let ResolveNftFloorParams { current_floor_price } = params;

    match ctx.validate() {
        Ok(()) => {},
        Err(e) => {
            return Err(ResolverError::Resolver(e));
        },
    }
    // Check that the timestamp has passed.
    if ctx.market.expiry_ts > now {
        return Err(ResolverError::Resolver(ErrorCode::TimestampNotPassed));
    }
    // Resolve to `Yes` if the current floor price is greater than or equal to
    // the market floor price.

    let outcome = if current_floor_price >= ctx.resolver_floor_price {
        Outcome::Yes
    } else {
        Outcome::No
    };

    if ctx.resolver_bump.is_none() {
        return Err(ResolverError::Resolver(ErrorCode::MissingBumpSeed));
    }
    // Resolve the market.

    match ctx.resolve(outcome, now) {
        Ok(()) => Ok(()),
        Err(e) => Err(ResolverError::Escrow(e)),
    }
}

/// Where the resolver is the market's own and the market is not yet final,
/// resolving sets the outcome that the floor price decides, at `now`; the
/// escrow program has no cause to refuse it.
pub proof fn lemma_floor_decides(ctx: ResolveNftFloor, params: ResolveNftFloorParams, now: u64)
    requires
        ctx.check_accounts() is Ok,
        ctx.resolver_bump is Some,
        ctx.market.resolver == ctx.resolver_key,
        ctx.market.expiry_ts <= now,
        ctx.market.after_check(now) == Ok::<Market, crate::escrow::error::ErrorCode>(ctx.market),
        !ctx.market.finalized,
    ensures
        resolve_nft_floor(ctx, params, now) == Ok::<Market, ResolverError>(
            Market {
                outcome: floor_outcome(params.current_floor_price, ctx.resolver_floor_price),
                outcome_ts: now,
                ..ctx.market
            },
        ),
{
}

} // verus!

//! Settling a market by its feed.

use vstd::prelude::*;

use crate::common::pubkey::Pubkey;
use crate::escrow::instructions::update_outcome::{outcome_updated, update_outcome};
use crate::escrow::instructions::update_state::{UpdateState, UpdateStateParams};
use crate::escrow::state::market::Market;
use crate::escrow::state::outcome::Outcome;
use crate::switchboard_resolver::error::{ErrorCode, ResolverError};
use crate::switchboard_resolver::state::resolver::Resolver;
use crate::switchboard_resolver::utils::{
    is_reported_as, load_aggregator_account, AggregatorAccountData, FeedError, SwitchboardDecimal,
};

verus! {

/// Resolves a market by its feed.
#[derive(Clone, Copy, Debug)]
pub struct Resolve {
    /// The address of the resolver.
    pub resolver_key: Pubkey,
    /// The metadata account for the resolver.
    pub resolver: Resolver,
    /// The bump seed of the resolver's address, where the host has found it.
    pub resolver_bump: Option<u8>,
    /// The market to resolve.
    pub market: Market,
    /// The address of the Switchboard aggregator feed.
    pub feed: Pubkey,
}

/// The outcome that a feed's reading decides: yes for 1, no for 2, both
/// without decimal places; void for every other reading.
pub open spec fn feed_outcome(result: SwitchboardDecimal) -> Outcome {
    if result.scale == 0 && result.mantissa == 1 {
        Outcome::Yes
    } else if result.scale == 0 && result.mantissa == 2 {
        Outcome::No
    } else {
        Outcome::Invalid
    }
}

/// What resolving at `now` does and returns, given what came of loading the
/// feed account.
///
/// The resolver must be the market's and the market must have expired. A
/// feed that did not load fails with the error as the resolver reports it;
/// one that has no result, with the feed's own error. With the bump seed
/// there, the outcome that the reading decides is put to the escrow program
/// in the resolver's name, and the market is what the escrow program makes
/// of it. A failed request changes nothing.
pub open spec fn resolved(
    before: Resolve,
    loaded: Result<AggregatorAccountData, FeedError>,
    now: u64,
    after: Resolve,
    res: Result<(), ResolverError>,
) -> bool {
    if before.market.resolver != before.resolver_key {
        after == before && res is Err && res->Err_0 == ResolverError::Resolver(
            ErrorCode::IncorrectResolver,
        )
    } else if before.market.expiry_ts > now {
        after == before && res is Err && res->Err_0 == ResolverError::Resolver(
            ErrorCode::TimestampNotPassed,
        )
    } else if loaded is Err {
        {
            &&& after == before
            &&& res matches Err(ResolverError::Feed(e))
            &&& is_reported_as(loaded->Err_0, e)
        }
    } else if loaded->Ok_0.result is Err {
        after == before && res is Err && res->Err_0 == ResolverError::Feed(
            loaded->Ok_0.result->Err_0,
        )
    } else if before.resolver_bump is None {
        after == before && res is Err && res->Err_0 == ResolverError::Resolver(
            ErrorCode::NonCanonicalBump,
        )
    } else {
        match update_outcome(
            before.market,
            before.resolver_key,
            now,
            feed_outcome(loaded->Ok_0.result->Ok_0),
        ) {
            Ok(market) => after == (Resolve { market, ..before }) && res is Ok,
            Err(escrow) => after == before && res is Err && res->Err_0 == ResolverError::Escrow(
                escrow,
            ),
        }
    }
}

impl Resolve {
    /// Checks that the resolver is the market's.
    pub fn validate(&self) -> (res: Result<(), ErrorCode>)
        ensures
            self.market.resolver == self.resolver_key ==> res == Ok::<(), ErrorCode>(()),
            self.market.resolver != self.resolver_key ==> res == Err::<(), ErrorCode>(
                ErrorCode::IncorrectResolver,
            ),
    {
        if self.market.resolver != self.resolver_key {
            return Err(ErrorCode::IncorrectResolver);
        }
        Ok(())
    }

    /// Resolves the market: puts `outcome` to the escrow program at `now`,
    /// in the resolver's name.
    pub fn resolve(&mut self, outcome: Outcome, now: u64) -> (res: Result<
        (),
        crate::escrow::error::ErrorCode,
    >)
        ensures
            *final(self) == (Resolve { market: final(self).market, ..*old(self) }),
            outcome_updated(
                old(self).market,
                old(self).resolver_key,
                now,
                outcome,
                final(self).market,
                res,
            ),
    {
        let mut accounts = UpdateState { market: self.market, resolver: self.resolver_key };
        let params = UpdateStateParams { outcome };
        let res = crate::escrow::instructions::update_state::handler(&mut accounts, params, now);
        self.market = accounts.market;
        res
    }
}

/// Decides the outcome that a feed's reading stands for.
pub fn outcome_of(result: SwitchboardDecimal) -> (outcome: Outcome)
    ensures
        outcome == feed_outcome(result),
{
    if result.scale == 0 {
        let result: i128 = result.mantissa;
        if result == 1 {
            Outcome::Yes
        } else if result == 2 {
            Outcome::No
        } else {
            Outcome::Invalid
        }
    } else {
        Outcome::Invalid
    }
}

/// Resolves the market by its feed at `now`, given what came of loading the
/// feed account. A failed request changes nothing.
pub fn handler(
    ctx: &mut Resolve,
    loaded: Result<AggregatorAccountData, FeedError>,
    now: u64,
) -> (res: Result<(), ResolverError>)
    ensures
        resolved(*old(ctx), loaded, now, *final(ctx), res),
{
    match ctx.validate() {
        Ok(()) => {},
        Err(e) => {
            return Err(ResolverError::Resolver(e));
        },
    }
    // Check that the timestamp has passed.
    if ctx.market.expiry_ts > now {
        return Err(ResolverError::Resolver(ErrorCode::TimestampNotPassed));
    }
    let feed = match load_aggregator_account(loaded) {
        Ok(feed) => feed,
        Err(e) => {
            return Err(ResolverError::Feed(e));
        },
    };
    let result = match feed.get_result() {
        Ok(result) => result,
        Err(e) => {
            return Err(ResolverError::Feed(e));
        },
    };
    let outcome = outcome_of(result);

    if ctx.resolver_bump.is_none() {
        return Err(ResolverError::Resolver(ErrorCode::NonCanonicalBump));
    }
    // Resolve the market.

    match ctx.resolve(outcome, now) {
        Ok(()) => Ok(()),
        Err(e) => Err(ResolverError::Escrow(e)),
    }
}

/// Where the market is not yet final, resolving sets the outcome that the
/// feed's reading decides, at `now`; the escrow program has no cause to
/// refuse it.
pub proof fn lemma_feed_decides(
    market: Market,
    resolver: Pubkey,
    result: SwitchboardDecimal,
    now: u64,
)
    requires
        market.resolver == resolver,
        market.expiry_ts <= now,
        market.after_check(now) == Ok::<Market, crate::escrow::error::ErrorCode>(market),
        !market.finalized,
    ensures
        update_outcome(market, resolver, now, feed_outcome(result)) == Ok::<
            Market,
            crate::escrow::error::ErrorCode,
        >(Market { outcome: feed_outcome(result), outcome_ts: now, ..market }),
        feed_outcome(result) != Outcome::Open,
{
}

} // verus!

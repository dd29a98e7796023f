//! Setting up a feed resolver for a market.

use vstd::prelude::*;

use crate::common::pubkey::Pubkey;
use crate::common::system::{init_account, spec_init_account, NewAccount, SystemInstruction};
use crate::escrow::instructions::resolver_acknowledge::ResolverAcknowledge;
use crate::escrow::state::market::Market;
use crate::switchboard_resolver::error::{ErrorCode, ResolverError};
use crate::switchboard_resolver::state::resolver::Resolver;
use crate::switchboard_resolver::utils::{
    is_reported_as, load_aggregator_account, AggregatorAccountData, FeedError,
};

verus! {

/// Sets up a feed resolver for a market.
#[derive(Clone, Copy, Debug)]
pub struct Initialize {
    /// The metadata account for the resolver.
    pub resolver: NewAccount,
    /// The address of the market to resolve.
    pub market_key: Pubkey,
    /// The market to resolve.
    pub market: Market,
    /// The address of the Switchboard aggregator feed.
    pub feed: Pubkey,
    /// The market creator.
    pub creator: Pubkey,
    /// The address of the resolver program, which is to own the account.
    pub program_id: Pubkey,
    /// The lamports that the resolver account must hold.
    pub rent: u64,
}

/// The number of bytes of the resolver account: the record behind its
/// eight-byte tag.
pub const SPACE: usize = 8 + Resolver::LEN;

/// What setting up a resolver does and returns, given what came of loading
/// the feed account.
///
/// The resolver must be the market's and the signer the market's creator;
/// the feed must have loaded; the bump seed must be there. Then the market
/// is acknowledged, and the result holds the resolver's record and the
/// steps that set up its account. Else nothing is touched.
pub open spec fn initialized(
    before: Initialize,
    loaded: Result<AggregatorAccountData, FeedError>,
    after: Initialize,
    res: Result<(Resolver, Vec<SystemInstruction>), ResolverError>,
) -> bool {
    if before.check_accounts() is Err {
        after == before && res is Err && res->Err_0 == ResolverError::Resolver(
            before.check_accounts()->Err_0,
        )
    } else if loaded is Err {
        {
            &&& after == before
            &&& res matches Err(ResolverError::Feed(e))
            &&& is_reported_as(loaded->Err_0, e)
        }
    } else if before.resolver.bump is None {
        after == before && res is Err && res->Err_0 == ResolverError::Resolver(
            ErrorCode::NonCanonicalBump,
        )
    } else {
        &&& after == (Initialize {
            market: Market { acknowledged: true, ..before.market },
            ..before
        })
        &&& res is Ok
        &&& res->Ok_0.0 == (Resolver { market: before.market_key, feed: before.feed })
        &&& res->Ok_0.1@ == before.resolver_steps()
    }
}

impl Initialize {
    /// Whether the accounts belong together: the resolver is the market's,
    /// and the signer is the creator of the market.
    pub open spec fn check_accounts(&self) -> Result<(), ErrorCode> {
        if self.market.resolver != self.resolver.key {
            Err(ErrorCode::IncorrectResolver)
        } else if self.creator != self.market.creator {
            Err(ErrorCode::IncorrectCreator)
        } else {
            Ok(())
        }
    }

    /// The steps that set up the resolver account, paid for by the creator.
    pub open spec fn resolver_steps(&self) -> Seq<SystemInstruction> {
        spec_init_account(
            self.creator,
            self.resolver.key,
            self.resolver.lamports,
            self.rent,
            SPACE as u64,
            self.program_id,
        )
    }

    /// Checks that the accounts belong together.
    pub fn validate(&self) -> (res: Result<(), ErrorCode>)
        ensures
            res == self.check_accounts(),
    {
        if self.market.resolver != self.resolver.key {
            return Err(ErrorCode::IncorrectResolver);
        }
        if self.creator != self.market.creator {
            return Err(ErrorCode::IncorrectCreator);
        }
        Ok(())
    }

    /// Decides the steps that set up the resolver account.
    fn init_resolver(&self) -> (steps: Vec<SystemInstruction>)
        ensures
            steps@ == self.resolver_steps(),
    {
        init_account(
            &self.creator,
            &self.resolver.key,
            self.resolver.lamports,
            self.rent,
            SPACE as u64,
            &self.program_id,
        )
    }

    /// Acknowledge the market, as its resolver.
    fn resolver_acknowledge(&mut self) -> (res: Result<(), crate::escrow::error::ErrorCode>)
        requires
            old(self).market.resolver == old(self).resolver.key,
        ensures
            res == Ok::<(), crate::escrow::error::ErrorCode>(()),
            *final(self) == (Initialize {
                market: Market { acknowledged: true, ..old(self).market },
                ..*old(self)
            }),
    {
        let mut accounts = ResolverAcknowledge { market: self.market, resolver: self.resolver.key };
        let res = crate::escrow::instructions::resolver_acknowledge::handler(&mut accounts);
        self.market = accounts.market;
        res
    }
}

/// Sets up the resolver of a market, given what came of loading the feed
/// account: returns the resolver's record and the steps that set up its
/// account, and acknowledges the market. A refused request changes nothing.
pub fn handler(ctx: &mut Initialize, loaded: Result<AggregatorAccountData, FeedError>) -> (res:
    Result<(Resolver, Vec<SystemInstruction>), ResolverError>)
    ensures
        initialized(*old(ctx), loaded, *final(ctx), res),
{
    match ctx.validate() {
        Ok(()) => {},
        Err(e) => {
            return Err(ResolverError::Resolver(e));
        },
    }
    // Attempt to load the feed account, to validate the account data.
    match load_aggregator_account(loaded) {
        Ok(_) => {},
        Err(e) => {
            return Err(ResolverError::Feed(e));
        },
    }
    if ctx.resolver.bump.is_none() {
        return Err(ResolverError::Resolver(ErrorCode::NonCanonicalBump));
    }
    let steps = ctx.init_resolver();
    let resolver = Resolver { market: ctx.market_key, feed: ctx.feed };

    // Acknowledge the market.
    let acknowledged = ctx.resolver_acknowledge();
    assert(acknowledged is Ok);

    Ok((resolver, steps))
}

} // verus!

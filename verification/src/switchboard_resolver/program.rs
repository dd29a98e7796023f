//! The feed resolver's entry points.

use vstd::prelude::*;

use crate::common::system::SystemInstruction;
use crate::switchboard_resolver::error::ResolverError;
use crate::switchboard_resolver::instructions;
use crate::switchboard_resolver::instructions::initialize::{initialized, Initialize};
use crate::switchboard_resolver::instructions::resolve::{resolved, Resolve};
use crate::switchboard_resolver::state::resolver::Resolver;
use crate::switchboard_resolver::utils::{AggregatorAccountData, FeedError};

verus! {

/// Sets up the resolver of a market, given what came of loading the feed
/// account.
pub fn initialize(ctx: &mut Initialize, loaded: Result<AggregatorAccountData, FeedError>) -> (res:
    Result<(Resolver, Vec<SystemInstruction>), ResolverError>)
    ensures
        initialized(*old(ctx), loaded, *final(ctx), res),
{
    instructions::initialize::handler(ctx, loaded)
}

/// Resolves a market by its feed at `now`, given what came of loading the
/// feed account.
pub fn resolve(
    ctx: &mut Resolve,
    loaded: Result<AggregatorAccountData, FeedError>,
    now: u64,
) -> (res: Result<(), ResolverError>)
    ensures
        resolved(*old(ctx), loaded, now, *final(ctx), res),
{
    instructions::resolve::handler(ctx, loaded, now)
}

} // verus!

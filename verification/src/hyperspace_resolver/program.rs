//! The floor-price resolver's entry points.

use vstd::prelude::*;

use crate::common::system::SystemInstruction;
use crate::hyperspace_resolver::error::{ErrorCode, ResolverError};
use crate::hyperspace_resolver::instructions;
use crate::hyperspace_resolver::instructions::initialize_nft_floor::{
    nft_floor_initialized, resolver_space, InitializeNftFloor, InitializeNftFloorParams,
};
use crate::hyperspace_resolver::instructions::resolve_nft_floor::{
    resolved, ResolveNftFloor, ResolveNftFloorParams,
};
use crate::hyperspace_resolver::state::nft_floor::NftFloor;

verus! {

/// Sets up the resolver of a market at `now`.
pub fn initialize_nft_floor(
    ctx: &mut InitializeNftFloor,
    params: InitializeNftFloorParams,
    now: u64,
) -> (res: Result<(NftFloor, Vec<SystemInstruction>), ErrorCode>)
    requires
        resolver_space(vstd::utf8::encode_utf8(params.project_id@).len()) <= usize::MAX,
    ensures
        nft_floor_initialized(*old(ctx), params, now, *final(ctx), res),
{
    instructions::initialize_nft_floor::handler(ctx, params, now)
}

/// Resolves a market by the floor price at `now`.
pub fn resolve_nft_floor(
    ctx: &mut ResolveNftFloor,
    params: ResolveNftFloorParams,
    now: u64,
) -> (res: Result<(), ResolverError>)
    ensures
        resolved(*old(ctx), params, now, *final(ctx), res),
{
    instructions::resolve_nft_floor::handler(ctx, params, now)
}

} // verus!

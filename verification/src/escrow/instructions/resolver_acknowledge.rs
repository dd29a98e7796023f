//! A resolver's word that it has taken on a market.

use vstd::prelude::*;

use crate::common::pubkey::Pubkey;
use crate::escrow::error::ErrorCode;
use crate::escrow::state::market::Market;

verus! {

/// Allows the resolver to acknowledge a given market.
#[derive(Clone, Copy, Debug)]
pub struct ResolverAcknowledge {
    /// The market account to acknowledge.
    pub market: Market,
    /// The resolver for the market.
    pub resolver: Pubkey,
}

/// What an acknowledgement does and returns: from the market's resolver it
/// marks the market acknowledged and touches nothing else; from anyone else
/// it is refused and changes nothing.
pub open spec fn acknowledged(
    before: ResolverAcknowledge,
    after: ResolverAcknowledge,
    res: Result<(), ErrorCode>,
) -> bool {
    if before.resolver == before.market.resolver {
        &&& res == Ok::<(), ErrorCode>(())
        &&& after == (ResolverAcknowledge {
            market: Market { acknowledged: true, ..before.market },
            ..before
        })
    } else {
        &&& res == Err::<(), ErrorCode>(ErrorCode::IncorrectResolver)
        &&& after == before
    }
}

impl ResolverAcknowledge {
    /// Checks that the signer is the resolver of the market.
    pub fn validate(&self) -> (res: Result<(), ErrorCode>)
        ensures
            self.resolver == self.market.resolver ==> res == Ok::<(), ErrorCode>(()),
            self.resolver != self.market.resolver ==> res == Err::<(), ErrorCode>(
                ErrorCode::IncorrectResolver,
            ),
    {
        if self.resolver != self.market.resolver {
            return Err(ErrorCode::IncorrectResolver);
        }
        Ok(())
    }
}

/// Marks the market as acknowledged by its resolver.
pub fn handler(ctx: &mut ResolverAcknowledge) -> (res: Result<(), ErrorCode>)
    ensures
        acknowledged(*old(ctx), *final(ctx), res),
{
    match ctx.validate() {
        Ok(()) => {},
        Err(e) => {
            return Err(e);
        },
    }
    ctx.market.acknowledged = true;

    Ok(())
}

} // verus!

//! The authority's word that it stands behind a resolver.

use vstd::prelude::*;

use crate::common::pubkey::Pubkey;
use crate::hyperspace_resolver::error::ErrorCode;

verus! {

/// Allows the authority to acknowledge a resolver.
///
/// Of the resolver only its authority and its flag are read and written
/// here.
#[derive(Clone, Copy, Debug)]
pub struct AcknowledgeNftFloor {
    /// The authority that the resolver names.
    pub resolver_authority: Pubkey,
    /// Whether the resolver has been acknowledged by the authority.
    pub resolver_acknowledged: bool,
    /// The resolver authority.
    pub authority: Pubkey,
}

/// What an acknowledgement does and returns: it sets the flag, once, for
/// the resolver's authority; for anyone else, or a second time, it is
/// refused and changes nothing.
pub open spec fn acknowledged(
    before: AcknowledgeNftFloor,
    after: AcknowledgeNftFloor,
    res: Result<(), ErrorCode>,
) -> bool {
    if before.authority != before.resolver_authority {
        after == before && res == Err::<(), ErrorCode>(ErrorCode::IncorrectAuthority)
    } else if before.resolver_acknowledged {
        after == before && res == Err::<(), ErrorCode>(ErrorCode::AlreadyAcknowledged)
    } else {
        after == (AcknowledgeNftFloor { resolver_acknowledged: true, ..before }) && res == Ok::<
            (),
            ErrorCode,
        >(())
    }
}

impl AcknowledgeNftFloor {
    /// Checks that the signer is the authority of the resolver.
    pub fn validate(&self) -> (res: Result<(), ErrorCode>)
        ensures
            self.authority == self.resolver_authority ==> res == Ok::<(), ErrorCode>(()),
            self.authority != self.resolver_authority ==> res == Err::<(), ErrorCode>(
                ErrorCode::IncorrectAuthority,
            ),
    {
        if self.authority != self.resolver_authority {
            return Err(ErrorCode::IncorrectAuthority);
        }
        Ok(())
    }
}

/// Marks the resolver as acknowledged by its authority.
pub fn handler(ctx: &mut AcknowledgeNftFloor) -> (res: Result<(), ErrorCode>)
    ensures
        acknowledged(*old(ctx), *final(ctx), res),
{
    match ctx.validate() {
        Ok(()) => {},
        Err(e) => {
            return Err(e);
        },
    }
    if ctx.resolver_acknowledged {
        return Err(ErrorCode::AlreadyAcknowledged);
    }
    ctx.resolver_acknowledged = true;

    Ok(())
}

} // verus!

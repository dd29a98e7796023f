//! Setting up a floor-price resolver for a market.

use vstd::prelude::*;
use vstd::string::StringSliceAdditionalSpecFns;

use crate::common::pubkey::Pubkey;
use crate::common::system::{init_account, spec_init_account, NewAccount, SystemInstruction};
use crate::escrow::instructions::resolver_acknowledge::ResolverAcknowledge;
use crate::escrow::state::market::Market;
use crate::hyperspace_resolver::error::ErrorCode;
use crate::hyperspace_resolver::state::nft_floor::{spec_account_size, NftFloor};

verus! {

/// Parameters for setting up a floor-price resolver.
#[derive(Clone, Debug)]
pub struct InitializeNftFloorParams {
    /// The public key of the resolver authority.
    pub authority: Pubkey,
    /// The floor price in lamports to compare to when resolving.
    pub floor_price: u64,
    /// The project ID of the collection.
    pub project_id: String,
}

/// Sets up a floor-price resolver for a market.
#[derive(Clone, Copy, Debug)]
pub struct InitializeNftFloor {
    /// The metadata account for the resolver.
    pub resolver: NewAccount,
    /// The address of the market to resolve.
    pub market_key: Pubkey,
    /// The market to resolve.
    pub market: Market,
    /// The market creator.
    pub creator: Pubkey,
    /// The address of the resolver program, which is to own the account.
    pub program_id: Pubkey,
    /// The lamports that the resolver account must hold.
    pub rent: u64,
}

/// The number of bytes of the resolver account for a project ID of
/// `project_id_len` bytes: the record behind its eight-byte tag.
pub open spec fn resolver_space(project_id_len: nat) -> nat {
    8 + spec_account_size(project_id_len)
}

/// Why a resolver cannot be set up at `now`, if it cannot: it is not the
/// resolver of the market, the signer is not the creator of the market, the
/// market has expired, or the bump seed is missing.
pub open spec fn refusal(ctx: InitializeNftFloor, now: u64) -> Option<ErrorCode> {
    if ctx.check_accounts() is Err {
        Some(ctx.check_accounts()->Err_0)
    } else if ctx.market.expiry_ts <= now {
        Some(ErrorCode::TimestampPassed)
    } else if ctx.resolver.bump is None {
        Some(ErrorCode::MissingBumpSeed)
    } else {
        None
    }
}

/// What setting up a resolver at `now` does and returns: where nothing
/// speaks against it, the market is acknowledged, and the result holds the
/// resolver's record, not yet acknowledged by its authority, and the steps
/// that set up its account; else nothing is touched and the error is the
/// [`refusal`].
pub open spec fn nft_floor_initialized(
    before: InitializeNftFloor,
    params: InitializeNftFloorParams,
    now: u64,
    after: InitializeNftFloor,
    res: Result<(NftFloor, Vec<SystemInstruction>), ErrorCode>,
) -> bool {
    match refusal(before, now) {
        Some(e) => after == before && res == Err::<(NftFloor, Vec<SystemInstruction>), ErrorCode>(
            e,
        ),
        None => {
            &&& after == (InitializeNftFloor {
                market: Market { acknowledged: true, ..before.market },
                ..before
            })
            &&& res is Ok
            &&& res->Ok_0.0.authority == params.authority
            &&& res->Ok_0.0.market == before.market_key
            &&& !res->Ok_0.0.acknowledged
            &&& res->Ok_0.0.floor_price == params.floor_price
            &&& res->Ok_0.0.project_id@ == params.project_id@
            &&& res->Ok_0.1@ == spec_init_account(
                before.creator,
                before.resolver.key,
                before.resolver.lamports,
                before.rent,
                resolver_space(vstd::utf8::encode_utf8(params.project_id@).len()) as u64,
                before.program_id,
            )
        },
    }
}

impl InitializeNftFloor {
    /// Whether the accounts belong together: the resolver is the market's,
    /// and the signer is the creator of the market.
    pub open spec fn check_accounts(&self) -> Result<(), ErrorCode> {
        if self.market.resolver != self.resolver.key {
            Err(ErrorCode::IncorrectResolver)
        } else if self.creator != self.market.creator {
            Err(ErrorCode::IncorrectCreator)
        } else {
            Ok(())
        }
    }

    /// Checks that the accounts belong together.
    pub fn validate(&self) -> (res: Result<(), ErrorCode>)
        ensures
            res == self.check_accounts(),
    {
        if self.market.resolver != self.resolver.key {
            return Err(ErrorCode::IncorrectResolver);
        }
        if self.creator != self.market.creator {
            return Err(ErrorCode::IncorrectCreator);
        }
        Ok(())
    }

    /// Decides the steps that set up the resolver account.
    ///
    /// This has to be done by hand because the resolver account size varies
    /// depending on the project ID.
    fn init_resolver(&self, project_id: &str) -> (steps: Vec<SystemInstruction>)
        requires
            resolver_space(project_id.spec_bytes().len()) <= usize::MAX,
        ensures
            steps@ == spec_init_account(
                self.creator,
                self.resolver.key,
                self.resolver.lamports,
                self.rent,
                resolver_space(project_id.spec_bytes().len()) as u64,
                self.program_id,
            ),
    {
        let space: usize = 8 + NftFloor::account_size(project_id);
        init_account(
            &self.creator,
            &self.resolver.key,
            self.resolver.lamports,
            self.rent,
            space as u64,
            &self.program_id,
        )
    }

    /// Acknowledge the market, as its resolver.
    fn resolver_acknowledge(&mut self) -> (res: Result<(), crate::escrow::error::ErrorCode>)
        requires
            old(self).market.resolver == old(self).resolver.key,
        ensures
            res == Ok::<(), crate::escrow::error::ErrorCode>(()),
            *final(self) == (InitializeNftFloor {
                market: Market { acknowledged: true, ..old(self).market },
                ..*old(self)
            }),
    {
        let mut accounts = ResolverAcknowledge { market: self.market, resolver: self.resolver.key };
        let res = crate::escrow::instructions::resolver_acknowledge::handler(&mut accounts);
        self.market = accounts.market;
        res
    }
}

/// Sets up the resolver of a market at `now`: returns the resolver's record
/// and the steps that set up its account, and acknowledges the market. A
/// refused request changes nothing.
pub fn handler(ctx: &mut InitializeNftFloor, params: InitializeNftFloorParams, now: u64) -> (res:
    Result<(NftFloor, Vec<SystemInstruction>), ErrorCode>)
    requires
        resolver_space(vstd::utf8::encode_utf8(params.project_id@).len()) <= usize::MAX,
    ensures
        nft_floor_initialized(*old(ctx), params, now, *final(ctx), res),
{
    let InitializeNftFloorParams { authority, floor_price, project_id } = params;

    match ctx.validate() {
        Ok(()) => {},
        Err(e) => {
            return Err(e);
        },
    }
    // Check that the timestamp has not already passed.
    if ctx.market.expiry_ts <= now {
        return Err(ErrorCode::TimestampPassed);
    }
    if ctx.resolver.bump.is_none() {
        return Err(ErrorCode::MissingBumpSeed);
    }
    // Create or allocate space for the resolver account.

    let steps = ctx.init_resolver(project_id.as_str());

    let resolver = NftFloor {
        authority,
        market: ctx.market_key,
        acknowledged: false,
        floor_price,
        project_id,
    };

    // Acknowledge the market.
    let acknowledged = ctx.resolver_acknowledge();
    assert(acknowledged is Ok);

    Ok((resolver, steps))
}

} // verus!

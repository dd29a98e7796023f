//! Opening a market.

use vstd::prelude::*;

use crate::common::pubkey::Pubkey;
use crate::common::system::{init_account, spec_init_account, NewAccount, SystemInstruction};
use crate::escrow::error::ErrorCode;
use crate::escrow::state::market::Market;
use crate::escrow::state::outcome::Outcome;
use crate::escrow::state::uri::{UriResource, URI_MAX_LEN};

verus! {

/// Parameters for initializing a market.
#[derive(Clone, Debug)]
pub struct InitializeMarketParams {
    /// Set the close time for this market.
    pub close_ts: u64,
    /// Sets the expiry time.
    pub expiry_ts: u64,
    /// Amount of seconds to wait until a resolution is final.
    pub resolution_delay: u32,
    /// The amount of tokens to put on the yes side of the market.
    pub yes_amount: u64,
    /// The amount of tokens to put on the no side of the market.
    pub no_amount: u64,
    /// The resolver for this market.
    pub resolver: Pubkey,
    /// The URI that leads to the market info.
    pub uri: String,
}

/// Initializes a [`Market`].
///
/// Additionally initializes two token accounts to hold tokens in escrow.
#[derive(Clone, Copy, Debug)]
pub struct InitializeMarket {
    /// The market account to initialize.
    pub market: Market,
    /// The authority for the two token accounts.
    pub authority: Pubkey,
    /// The creator for the market.
    pub creator: Pubkey,
    /// The token that this market is denominated in.
    pub token_mint: Pubkey,
    /// Escrow for tokens on the yes side of the market.
    pub yes_token_account: NewAccount,
    /// Escrow for tokens on the no side of the market.
    pub no_token_account: NewAccount,
    /// The token program, which is to own the escrows.
    pub token_program: Pubkey,
    /// The number of bytes that a token account takes.
    pub token_account_len: u64,
    /// The lamports that an account of that size must hold.
    pub token_account_rent: u64,
}

/// A step in setting up an escrow.
#[derive(Clone, Copy, Debug)]
pub enum EscrowStep {
    /// A request to the system program.
    System(SystemInstruction),
    /// The request to the token program that makes `account` a token
    /// account for `mint`, under `authority`.
    InitializeAccount { account: Pubkey, mint: Pubkey, authority: Pubkey },
}

/// The bytes of a URI as it is stored.
pub open spec fn uri_bytes(uri: Seq<char>) -> Seq<u8> {
    vstd::utf8::encode_utf8(uri)
}

/// Why a market cannot be opened at `now`, if it cannot: a side without a
/// target, a close time that has passed, an expiry before the close, an
/// escrow without its bump seed, or a URI of more than 256 bytes.
pub open spec fn refusal(ctx: InitializeMarket, params: InitializeMarketParams, now: u64) -> Option<
    ErrorCode,
> {
    if params.yes_amount == 0 || params.no_amount == 0 {
        Some(ErrorCode::ZeroTokensToFill)
    } else if params.close_ts < now {
        Some(ErrorCode::InvalidCloseTimestamp)
    } else if params.expiry_ts < params.close_ts {
        Some(ErrorCode::InvalidExpiryTimestamp)
    } else if ctx.yes_token_account.bump is None || ctx.no_token_account.bump is None {
        Some(ErrorCode::MissingBumpSeed)
    } else if uri_bytes(params.uri@).len() > URI_MAX_LEN {
        Some(ErrorCode::InvalidMarketResource)
    } else {
        None
    }
}

/// Whether `market` is the market that `params` ask for, on the accounts of
/// `ctx`: open, empty, not final, not acknowledged.
pub open spec fn is_new_market(
    market: Market,
    ctx: InitializeMarket,
    params: InitializeMarketParams,
) -> bool {
    &&& market.creator == ctx.creator
    &&& market.resolver == params.resolver
    &&& market.token_mint == ctx.token_mint
    &&& market.yes_token_account == ctx.yes_token_account.key
    &&& market.no_token_account == ctx.no_token_account.key
    &&& market.yes_amount == params.yes_amount
    &&& market.yes_filled == 0
    &&& market.no_amount == params.no_amount
    &&& market.no_filled == 0
    &&& market.close_ts == params.close_ts
    &&& market.expiry_ts == params.expiry_ts
    &&& market.outcome_ts == 0
    &&& market.resolution_delay == params.resolution_delay
    &&& market.outcome == Outcome::Open
    &&& !market.finalized
    &&& Some(market.yes_account_bump) == ctx.yes_token_account.bump
    &&& Some(market.no_account_bump) == ctx.no_token_account.bump
    &&& !market.acknowledged
    &&& market.uri.wf()
    &&& market.uri@ == uri_bytes(params.uri@)
}

/// What opening a market at `now` does and returns: where nothing speaks
/// against it, the market is the new market and the steps set up the yes
/// escrow, then the no escrow; else nothing is touched and the error is the
/// [`refusal`].
pub open spec fn market_initialized(
    before: InitializeMarket,
    params: InitializeMarketParams,
    now: u64,
    after: InitializeMarket,
    res: Result<Vec<EscrowStep>, ErrorCode>,
) -> bool {
    match refusal(before, params, now) {
        Some(e) => after == before && res == Err::<Vec<EscrowStep>, ErrorCode>(e),
        None => {
            &&& is_new_market(after.market, before, params)
            &&& after == InitializeMarket { market: after.market, ..before }
            &&& res is Ok
            &&& res->Ok_0@ == before.escrow_steps(before.yes_token_account)
                + before.escrow_steps(before.no_token_account)
        },
    }
}

impl InitializeMarket {
    /// The steps that make `account` a token account of the market: the
    /// system program's, then the token program's.
    pub open spec fn escrow_steps(&self, account: NewAccount) -> Seq<EscrowStep> {
        spec_init_account(
            self.creator,
            account.key,
            account.lamports,
            self.token_account_rent,
            self.token_account_len,
            self.token_program,
        ).map_values(|step: SystemInstruction| EscrowStep::System(step)).push(
            EscrowStep::InitializeAccount {
                account: account.key,
                mint: self.token_mint,
                authority: self.authority,
            },
        )
    }

    /// Decides the steps that make `account` a token account of the market,
    /// paid for by the creator.
    fn init_token_account(&self, account: &NewAccount) -> (steps: Vec<EscrowStep>)
        ensures
            steps@ == self.escrow_steps(*account),
    {
        let system = init_account(
            &self.creator,
            &account.key,
            account.lamports,
            self.token_account_rent,
            self.token_account_len,
            &self.token_program,
        );
        let mut steps: Vec<EscrowStep> = Vec::new();
        let mut i: usize = 0;
        while i < system.len()
            invariant
                i <= system.len(),
                steps@ == system@.subrange(0, i as int).map_values(
                    |step: SystemInstruction| EscrowStep::System(step),
                ),
            decreases system.len() - i,
        {
            steps.push(EscrowStep::System(system[i]));
            i += 1;
            assert(steps@ =~= system@.subrange(0, i as int).map_values(
                |step: SystemInstruction| EscrowStep::System(step),
            ));
        }
        assert(system@.subrange(0, i as int) =~= system@);
        // Initialize the token account.
        steps.push(
            EscrowStep::InitializeAccount {
                account: account.key,
                mint: self.token_mint,
                authority: self.authority,
            },
        );
        steps
    }

    /// Decides the steps that set up the yes escrow.
    fn init_yes_token_account(&self) -> (steps: Vec<EscrowStep>)
        ensures
            steps@ == self.escrow_steps(self.yes_token_account),
    {
        self.init_token_account(&self.yes_token_account)
    }

    /// Decides the steps that set up the no escrow.
    fn init_no_token_account(&self) -> (steps: Vec<EscrowStep>)
        ensures
            steps@ == self.escrow_steps(self.no_token_account),
    {
        self.init_token_account(&self.no_token_account)
    }
}

/// Opens a market at `now`: fills in the market record and returns the
/// steps that set up its two escrows. A refused request changes nothing.
pub fn handler(ctx: &mut InitializeMarket, params: InitializeMarketParams, now: u64) -> (res:
    Result<Vec<EscrowStep>, ErrorCode>)
    ensures
        market_initialized(*old(ctx), params, now, *final(ctx), res),
{
    let InitializeMarketParams {
        close_ts,
        expiry_ts,
        resolution_delay,
        uri,
        yes_amount,
        no_amount,
        resolver,
    } = params;

    // Exit early if parameters are invalid.
    if yes_amount == 0 || no_amount == 0 {
        return Err(ErrorCode::ZeroTokensToFill);
    }
    if close_ts < now {
        return Err(ErrorCode::InvalidCloseTimestamp);
    }
    if expiry_ts < close_ts {
        return Err(ErrorCode::InvalidExpiryTimestamp);
    }
    // Exit early if bump seeds are missing.

    let yes_account_bump: u8 = match ctx.yes_token_account.bump {
        Some(bump) => bump,
        None => {
            return Err(ErrorCode::MissingBumpSeed);
        },
    };
    let no_account_bump: u8 = match ctx.no_token_account.bump {
        Some(bump) => bump,
        None => {
            return Err(ErrorCode::MissingBumpSeed);
        },
    };

    // Exit early if info is invalid.
    let uri = match UriResource::validate(uri.as_str()) {
        Ok(uri) => uri,
        Err(e) => {
            return Err(e);
        },
    };

    let mut steps = ctx.init_yes_token_account();
    let mut no_steps = ctx.init_no_token_account();
    steps.append(&mut no_steps);

    ctx.market.uri = uri;
    ctx.market.creator = ctx.creator;
    ctx.market.resolver = resolver;
    ctx.market.token_mint = ctx.token_mint;
    ctx.market.yes_token_account = ctx.yes_token_account.key;
    ctx.market.no_token_account = ctx.no_token_account.key;
    ctx.market.yes_amount = yes_amount;
    ctx.market.yes_filled = 0;
    ctx.market.no_amount = no_amount;
    ctx.market.no_filled = 0;
    ctx.market.close_ts = close_ts;
    ctx.market.expiry_ts = expiry_ts;
    ctx.market.outcome_ts = 0;
    ctx.market.resolution_delay = resolution_delay;
    ctx.market.outcome = Outcome::Open;
    ctx.market.finalized = false;
    ctx.market.yes_account_bump = yes_account_bump;
    ctx.market.no_account_bump = no_account_bump;
    ctx.market.acknowledged = false;

    Ok(steps)
}

/// There is one stored form of a URI: two well-formed resources that hold
/// the same bytes are the same.
pub proof fn lemma_uri_is_unique(a: UriResource, b: UriResource)
    requires
        a.wf(),
        b.wf(),
        a@ == b@,
    ensures
        a == b,
{
    assert(a@.len() == a.len && b@.len() == b.len);
    assert forall|i: int| 0 <= i < 256 implies a.uri[i] == b.uri[i] by {
        if i < a.len {
            assert(a.uri[i] == a@[i]);
            assert(b.uri[i] == b@[i]);
        }
    }
    assert(a.uri =~= b.uri);
}

/// A market that has just been opened is sound, has both targets above
/// zero, and closes no later than it expires and no earlier than
/// `now`. Before it closes the finalize check leaves it as it is, unless
/// its expiry is so late that its deadline does not fit in 64 bits.
pub proof fn lemma_new_market_is_open(
    market: Market,
    ctx: InitializeMarket,
    params: InitializeMarketParams,
    now: u64,
)
    requires
        refusal(ctx, params, now) is None,
        is_new_market(market, ctx, params),
    ensures
        market.wf(),
        market.sound(),
        market.yes_amount > 0 && market.no_amount > 0,
        now <= market.close_ts <= market.expiry_ts,
        market.underfunded(),
        now < market.close_ts && market.hard_deadline() <= u64::MAX ==> market.after_check(now)
            == Ok::<Market, ErrorCode>(market),
{
}

} // verus!

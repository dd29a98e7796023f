//! Putting funds on a side of a market.

use vstd::prelude::*;

use crate::common::pubkey::Pubkey;
use crate::escrow::error::ErrorCode;
use crate::escrow::state::market::Market;
use crate::escrow::state::user_position::UserPosition;
use crate::escrow::utils::{non_signer_transfer, TokenAccount, Transfer};

verus! {

/// Parameters for the [Deposit] instruction.
#[derive(Clone, Copy, Debug)]
pub struct DepositParams {
    /// The amount to deposit on the yes side.
    pub yes_amount: u64,
    /// The amount to deposit on the no side.
    pub no_amount: u64,
    /// If true, the instruction will not fail if the user attempts to fill a
    /// side above the specified amount, but rather fill that side to the max.
    pub allow_partial: bool,
}

/// Allows a user to deposit into a given market.
#[derive(Clone, Copy, Debug)]
pub struct Deposit {
    /// The market to deposit into.
    pub market: Market,
    /// The user depositing into the market.
    pub user: Pubkey,
    /// The user's position for this market.
    pub user_position: UserPosition,
    /// The user's token account.
    pub user_token_account: TokenAccount,
    /// Escrow for tokens on the yes side of the market.
    pub yes_token_account: Pubkey,
    /// Escrow for tokens on the no side of the market.
    pub no_token_account: Pubkey,
}

/// The smaller of two amounts.
pub open spec fn spec_min(a: int, b: int) -> int {
    if a <= b {
        a
    } else {
        b
    }
}

/// Whether a market takes a deposit at `now`, and how much of it.
///
/// A market that has closed, or that the finalize check finds final, takes
/// none. A request for more than a side has room for is refused, unless a
/// partial fill is allowed: then each side takes what it has room for, at
/// most what was asked.
pub open spec fn admit_deposit(
    market: Market,
    now: u64,
    yes_deposit: u64,
    no_deposit: u64,
    allow_partial: bool,
) -> Result<(u64, u64), ErrorCode> {
    let yes_room = market.yes_amount - market.yes_filled;
    let no_room = market.no_amount - market.no_filled;
    if market.close_ts <= now {
        Err(ErrorCode::MarketClosed)
    } else if market.after_check(now) is Err {
        Err(market.after_check(now)->Err_0)
    } else if market.final_at(now) {
        Err(ErrorCode::AlreadyFinalized)
    } else if yes_room < 0 {
        Err(ErrorCode::CalculationFailure)
    } else if yes_room < yes_deposit && !allow_partial {
        Err(ErrorCode::OverAllowedAmount)
    } else if no_room < 0 {
        Err(ErrorCode::CalculationFailure)
    } else if no_room < no_deposit && !allow_partial {
        Err(ErrorCode::OverAllowedAmount)
    } else {
        Ok(
            (
                spec_min(yes_room, yes_deposit as int) as u64,
                spec_min(no_room, no_deposit as int) as u64,
            ),
        )
    }
}

/// The accounts and the two transfers after a deposit at `now`, or the
/// reason why it is refused.
pub open spec fn deposit_outcome(ctx: Deposit, params: DepositParams, now: u64) -> Result<
    (Deposit, Seq<Transfer>),
    ErrorCode,
> {
    if ctx.check_accounts() is Err {
        Err(ctx.check_accounts()->Err_0)
    } else {
        match admit_deposit(
            ctx.market,
            now,
            params.yes_amount,
            params.no_amount,
            params.allow_partial,
        ) {
            Err(e) => Err(e),
            Ok((yes_deposit, no_deposit)) => {
                if ctx.user_position.yes_amount + yes_deposit > u64::MAX
                    || ctx.user_position.no_amount + no_deposit > u64::MAX
                    || ctx.market.yes_filled + yes_deposit > u64::MAX
                    || ctx.market.no_filled + no_deposit > u64::MAX {
                    Err(ErrorCode::CalculationFailure)
                } else {
                    Ok(
                        (
                            Deposit {
                                market: Market {
                                    yes_filled: (ctx.market.yes_filled + yes_deposit) as u64,
                                    no_filled: (ctx.market.no_filled + no_deposit) as u64,
                                    ..ctx.market
                                },
                                user_position: UserPosition {
                                    yes_amount: (ctx.user_position.yes_amount + yes_deposit) as u64,
                                    no_amount: (ctx.user_position.no_amount + no_deposit) as u64,
                                    ..ctx.user_position
                                },
                                ..ctx
                            },
                            seq![
                                Transfer {
                                    from: ctx.user_token_account.key,
                                    to: ctx.yes_token_account,
                                    authority: ctx.user,
                                    amount: yes_deposit,
                                    signer_bump: None,
                                },
                                Transfer {
                                    from: ctx.user_token_account.key,
                                    to: ctx.no_token_account,
                                    authority: ctx.user,
                                    amount: no_deposit,
                                    signer_bump: None,
                                },
                            ],
                        ),
                    )
                }
            },
        }
    }
}

/// What a deposit at `now` does and returns: on success the accounts and
/// the transfers are those of [`deposit_outcome`]; on failure the accounts
/// are untouched and the error is its error.
pub open spec fn deposited(
    before: Deposit,
    params: DepositParams,
    now: u64,
    after: Deposit,
    res: Result<Vec<Transfer>, ErrorCode>,
) -> bool {
    match deposit_outcome(before, params, now) {
        Ok((ctx, transfers)) => after == ctx && res is Ok && res->Ok_0@ == transfers,
        Err(e) => after == before && res == Err::<Vec<Transfer>, ErrorCode>(e),
    }
}

impl Deposit {
    /// Whether the accounts are the ones that the deposit is entitled to: the
    /// user's token account is the user's own and no escrow, and the two
    /// escrows are the market's.
    pub open spec fn check_accounts(&self) -> Result<(), ErrorCode> {
        if self.user_token_account.key == self.yes_token_account || self.user_token_account.key
            == self.no_token_account {
            Err(ErrorCode::UserAccountCannotBeMarketAccount)
        } else if self.user_token_account.owner != self.user {
            Err(ErrorCode::UserAccountIncorrectOwner)
        } else if self.yes_token_account != self.market.yes_token_account {
            Err(ErrorCode::IncorrectYesEscrow)
        } else if self.no_token_account != self.market.no_token_account {
            Err(ErrorCode::IncorrectNoEscrow)
        } else {
            Ok(())
        }
    }

    /// Checks that the accounts are the ones that the deposit is entitled to.
    pub fn validate(&self) -> (res: Result<(), ErrorCode>)
        ensures
            res == self.check_accounts(),
    {
        if self.user_token_account.key == self.yes_token_account || self.user_token_account.key
            == self.no_token_account {
            return Err(ErrorCode::UserAccountCannotBeMarketAccount);
        }
        if self.user_token_account.owner != self.user {
            return Err(ErrorCode::UserAccountIncorrectOwner);
        }
        if self.yes_token_account != self.market.yes_token_account {
            return Err(ErrorCode::IncorrectYesEscrow);
        }
        if self.no_token_account != self.market.no_token_account {
            return Err(ErrorCode::IncorrectNoEscrow);
        }
        Ok(())
    }

    /// Decides whether the market takes the deposit at `now`, and returns
    /// the amounts that go to the yes and to the no side. Nothing is
    /// changed.
    pub fn verify_deposit(
        &mut self,
        now: u64,
        yes_deposit: u64,
        no_deposit: u64,
        allow_partial: bool,
    ) -> (res: Result<(u64, u64), ErrorCode>)
        ensures
            *final(self) == *old(self),
            res == admit_deposit(old(self).market, now, yes_deposit, no_deposit, allow_partial),
    {
        if self.market.close_ts <= now {
            return Err(ErrorCode::MarketClosed);
        }
        let mut market = self.market;
        match market.finalize(now) {
            Ok(()) => {},
            Err(e) => {
                return Err(e);
            },
        }

        let yes_remaining: u64 = match self.market.yes_amount.checked_sub(self.market.yes_filled) {
            Some(remaining) => remaining,
            None => {
                return Err(ErrorCode::CalculationFailure);
            },
        };
        if yes_remaining < yes_deposit && !allow_partial {
            return Err(ErrorCode::OverAllowedAmount);
        }

        let no_remaining: u64 = match self.market.no_amount.checked_sub(self.market.no_filled) {
            Some(remaining) => remaining,
            None => {
                return Err(ErrorCode::CalculationFailure);
            },
        };
        if no_remaining < no_deposit && !allow_partial {
            return Err(ErrorCode::OverAllowedAmount);
        }

        let yes_taken: u64 = if yes_remaining < yes_deposit {
            yes_remaining
        } else {
            yes_deposit
        };
        let no_taken: u64 = if no_remaining < no_deposit {
            no_remaining
        } else {
            no_deposit
        };
        Ok((yes_taken, no_taken))
    }
}

/// Deposits into a market at `now`: adds what the market takes to the
/// market's filled amounts and to the user's position, and returns the two
/// transfers that bring it into the escrows, yes side first. A refused
/// deposit changes nothing.
pub fn handler(ctx: &mut Deposit, params: DepositParams, now: u64) -> (res: Result<
    Vec<Transfer>,
    ErrorCode,
>)
    ensures
        deposited(*old(ctx), params, now, *final(ctx), res),
{
    let DepositParams { yes_amount, no_amount, allow_partial } = params;

    match ctx.validate() {
        Ok(()) => {},
        Err(e) => {
            return Err(e);
        },
    }
    let (yes_deposit, no_deposit) = match ctx.verify_deposit(
        now,
        yes_amount,
        no_amount,
        allow_partial,
    ) {
        Ok(amounts) => amounts,
        Err(e) => {
            return Err(e);
        },
    };

    // Update state.
    let user_yes: u64 = match ctx.user_position.yes_amount.checked_add(yes_deposit) {
        Some(sum) => sum,
        None => {
            return Err(ErrorCode::CalculationFailure);
        },
    };
    let user_no: u64 = match ctx.user_position.no_amount.checked_add(no_deposit) {
        Some(sum) => sum,
        None => {
            return Err(ErrorCode::CalculationFailure);
        },
    };
    let yes_filled: u64 = match ctx.market.yes_filled.checked_add(yes_deposit) {
        Some(sum) => sum,
        None => {
            return Err(ErrorCode::CalculationFailure);
        },
    };
    let no_filled: u64 = match ctx.market.no_filled.checked_add(no_deposit) {
        Some(sum) => sum,
        None => {
            return Err(ErrorCode::CalculationFailure);
        },
    };
    ctx.user_position.yes_amount = user_yes;
    ctx.user_position.no_amount = user_no;
    ctx.market.yes_filled = yes_filled;
    ctx.market.no_filled = no_filled;

    // Order the transfers.
    let mut transfers: Vec<Transfer> = Vec::new();
    transfers.push(
        non_signer_transfer(
            &ctx.user_token_account.key,
            &ctx.yes_token_account,
            &ctx.user,
            yes_deposit,
        ),
    );
    transfers.push(
        non_signer_transfer(
            &ctx.user_token_account.key,
            &ctx.no_token_account,
            &ctx.user,
            no_deposit,
        ),
    );
    assert(transfers@ =~= deposit_outcome(*old(ctx), params, now).unwrap().1);
    Ok(transfers)
}

} // verus!

verus! {

/// A deposit takes from each request what the side has room for, never
/// more than was asked, and all of it unless a partial fill was allowed. It
/// moves into each escrow exactly what it adds to the market's books and to
/// the user's position, so what the other users hold of a side stays the
/// same. It is taken before the close only, by a market that is not final,
/// and it fills no side beyond its target.
pub proof fn lemma_deposit_conserves(ctx: Deposit, params: DepositParams, now: u64)
    requires
        deposit_outcome(ctx, params, now) is Ok,
    ensures
        ({
            let (after, transfers) = deposit_outcome(ctx, params, now)->Ok_0;
            let yes = transfers[0].amount;
            let no = transfers[1].amount;
            &&& transfers.len() == 2
            &&& yes == spec_min(
                ctx.market.yes_amount - ctx.market.yes_filled,
                params.yes_amount as int,
            )
            &&& no == spec_min(
                ctx.market.no_amount - ctx.market.no_filled,
                params.no_amount as int,
            )
            &&& !params.allow_partial ==> yes == params.yes_amount && no == params.no_amount
            &&& after.market.yes_filled == ctx.market.yes_filled + yes
            &&& after.market.no_filled == ctx.market.no_filled + no
            &&& after.user_position.yes_amount == ctx.user_position.yes_amount + yes
            &&& after.user_position.no_amount == ctx.user_position.no_amount + no
            &&& after.market.yes_filled <= after.market.yes_amount
            &&& after.market.no_filled <= after.market.no_amount
            &&& ctx.market.wf() ==> after.market.wf()
            &&& now < ctx.market.close_ts
            &&& !ctx.market.finalized && !after.market.finalized
        }),
{
}

/// A deposit keeps a sound market sound: a market with a yes or a no
/// outcome has no room left, so it takes nothing.
pub proof fn lemma_deposit_keeps_sound(ctx: Deposit, params: DepositParams, now: u64)
    requires
        ctx.market.sound(),
        deposit_outcome(ctx, params, now) is Ok,
    ensures
        deposit_outcome(ctx, params, now)->Ok_0.0.market.sound(),
{
}

/// A request for more than a side has room for fills the side to its target
/// where a partial fill is allowed, and is refused where it is not.
pub proof fn lemma_request_beyond_room(
    market: Market,
    now: u64,
    yes_deposit: u64,
    no_deposit: u64,
)
    requires
        admit_deposit(market, now, yes_deposit, no_deposit, true) is Ok,
        market.yes_amount - market.yes_filled < yes_deposit || market.no_amount - market.no_filled
            < no_deposit,
    ensures
        admit_deposit(market, now, yes_deposit, no_deposit, false) == Err::<(u64, u64), ErrorCode>(
            ErrorCode::OverAllowedAmount,
        ),
        market.yes_amount - market.yes_filled < yes_deposit ==> admit_deposit(
            market,
            now,
            yes_deposit,
            no_deposit,
            true,
        )->Ok_0.0 == market.yes_amount - market.yes_filled,
        market.no_amount - market.no_filled < no_deposit ==> admit_deposit(
            market,
            now,
            yes_deposit,
            no_deposit,
            true,
        )->Ok_0.1 == market.no_amount - market.no_filled,
{
}

/// A final market takes no deposit, at whatever time.
pub proof fn lemma_final_market_takes_nothing(
    market: Market,
    now: u64,
    yes_deposit: u64,
    no_deposit: u64,
    allow_partial: bool,
)
    requires
        market.finalized,
    ensures
        admit_deposit(market, now, yes_deposit, no_deposit, allow_partial) is Err,
{
}

} // verus!

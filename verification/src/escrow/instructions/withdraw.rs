//! Taking deposits back out of a void market.

use vstd::prelude::*;

use crate::common::pubkey::Pubkey;
use crate::escrow::error::ErrorCode;
use crate::escrow::state::market::Market;
use crate::escrow::state::outcome::Outcome;
use crate::escrow::state::user_position::UserPosition;
use crate::escrow::utils::{signer_transfer, TokenAccount, Transfer};

verus! {

/// Allows the user to withdraw from a finalized, invalid Market.
///
/// If the market can be auto-finalized, this instruction can do so without
/// a call to update its outcome.
#[derive(Clone, Copy, Debug)]
pub struct Withdraw {
    /// The user withdrawing funds.
    pub user: Pubkey,
    /// The yes token account for the market.
    pub yes_token_account: Pubkey,
    /// The no token account for the market.
    pub no_token_account: Pubkey,
    /// The user's token account.
    pub user_token_account: TokenAccount,
    /// The authority for the market token accounts.
    pub authority: Pubkey,
    /// The bump seed of the authority, where the host has found it.
    pub authority_bump: Option<u8>,
    /// The Market account.
    pub market: Market,
    /// The user's [UserPosition] account for this market.
    pub user_position: UserPosition,
}

/// The accounts and the two transfers after a withdrawal at `now`, or the
/// reason why it is refused.
///
/// The market must be void and final, by the finalize check at `now`. The
/// position is emptied, and each of its two amounts goes back to the user
/// in full, from the escrow of its side: yes first, then no.
pub open spec fn withdraw_outcome(ctx: Withdraw, now: u64) -> Result<
    (Withdraw, Seq<Transfer>),
    ErrorCode,
> {
    if ctx.check_accounts() is Err {
        Err(ctx.check_accounts()->Err_0)
    } else if ctx.market.after_check(now) is Err {
        Err(ctx.market.after_check(now)->Err_0)
    } else {
        let market = ctx.market.after_check(now)->Ok_0;
        if market.outcome != Outcome::Invalid {
            Err(ErrorCode::MarketNotInvalid)
        } else if !market.finalized {
            Err(ErrorCode::NotFinalized)
        } else if ctx.authority_bump is None {
            Err(ErrorCode::MissingBumpSeed)
        } else {
            Ok(
                (
                    Withdraw { market, user_position: ctx.user_position.cleared(), ..ctx },
                    seq![
                        Transfer {
                            from: ctx.yes_token_account,
                            to: ctx.user_token_account.key,
                            authority: ctx.authority,
                            amount: ctx.user_position.yes_amount,
                            signer_bump: ctx.authority_bump,
                        },
                        Transfer {
                            from: ctx.no_token_account,
                            to: ctx.user_token_account.key,
                            authority: ctx.authority,
                            amount: ctx.user_position.no_amount,
                            signer_bump: ctx.authority_bump,
                        },
                    ],
                ),
            )
        }
    }
}

/// What a withdrawal at `now` does and returns: on success the accounts and
/// the transfers are those of [`withdraw_outcome`]; on failure the accounts
/// are untouched and the error is its error.
pub open spec fn withdrawn(
    before: Withdraw,
    now: u64,
    after: Withdraw,
    res: Result<Vec<Transfer>, ErrorCode>,
) -> bool {
    match withdraw_outcome(before, now) {
        Ok((ctx, transfers)) => after == ctx && res is Ok && res->Ok_0@ == transfers,
        Err(e) => after == before && res == Err::<Vec<Transfer>, ErrorCode>(e),
    }
}

impl Withdraw {
    /// Whether the accounts are the ones that the withdrawal is entitled to:
    /// the user's token account is the user's own and no escrow, and the two
    /// escrows are the market's.
    pub open spec fn check_accounts(&self) -> Result<(), ErrorCode> {
        if self.user_token_account.key == self.yes_token_account || self.user_token_account.key
            == self.no_token_account {
            Err(ErrorCode::UserAccountCannotBeMarketAccount)
        } else if self.user_token_account.owner != self.user {
            Err(ErrorCode::UserAccountIncorrectOwner)
        } else if self.yes_token_account != self.market.yes_token_account {
            Err(ErrorCode::IncorrectYesEscrow)
        } else if self.no_token_account != self.market.no_token_account {
            Err(ErrorCode::IncorrectNoEscrow)
        } else {
            Ok(())
        }
    }

    /// Checks that the accounts are the ones that the withdrawal is entitled
    /// to.
    pub fn validate(&self) -> (res: Result<(), ErrorCode>)
        ensures
            res == self.check_accounts(),
    {
        if self.user_token_account.key == self.yes_token_account || self.user_token_account.key
            == self.no_token_account {
            return Err(ErrorCode::UserAccountCannotBeMarketAccount);
        }
        if self.user_token_account.owner != self.user {
            return Err(ErrorCode::UserAccountIncorrectOwner);
        }
        if self.yes_token_account != self.market.yes_token_account {
            return Err(ErrorCode::IncorrectYesEscrow);
        }
        if self.no_token_account != self.market.no_token_account {
            return Err(ErrorCode::IncorrectNoEscrow);
        }
        Ok(())
    }

    /// Runs the finalize check at `now` and fails unless it finds the market
    /// void and final.
    fn is_finalized(&mut self, now: u64) -> (res: Result<(), ErrorCode>)
        ensures
            *final(self) == (Withdraw { market: final(self).market, ..*old(self) }),
            match old(self).market.after_check(now) {
                Ok(market) => final(self).market == market && res == (if market.outcome
                    != Outcome::Invalid {
                    Err::<(), ErrorCode>(ErrorCode::MarketNotInvalid)
                } else if !market.finalized {
                    Err::<(), ErrorCode>(ErrorCode::NotFinalized)
                } else {
                    Ok::<(), ErrorCode>(())
                }),
                Err(e) => final(self).market == old(self).market && res == Err::<(), ErrorCode>(e),
            },
    {
        let result = match self.market.is_finalized(now) {
            Ok(result) => result,
            Err(e) => {
                return Err(e);
            },
        };
        if self.market.outcome != Outcome::Invalid {
            return Err(ErrorCode::MarketNotInvalid);
        }
        if !result {
            return Err(ErrorCode::NotFinalized);
        }
        Ok(())
    }
}

/// Returns a user's deposits at `now`: empties the position and returns the
/// two transfers that hand it back. No fee is taken. A refused withdrawal
/// changes nothing.
pub fn handler(ctx: &mut Withdraw, now: u64) -> (res: Result<Vec<Transfer>, ErrorCode>)
    ensures
        withdrawn(*old(ctx), now, *final(ctx), res),
{
    match ctx.validate() {
        Ok(()) => {},
        Err(e) => {
            return Err(e);
        },
    }
    let mut checked = *ctx;
    match checked.is_finalized(now) {
        Ok(()) => {},
        Err(e) => {
            return Err(e);
        },
    }
    let bump_seed: u8 = match ctx.authority_bump {
        Some(bump) => bump,
        None => {
            return Err(ErrorCode::MissingBumpSeed);
        },
    };

    let yes_withdraw: u64 = ctx.user_position.yes_amount;
    let no_withdraw: u64 = ctx.user_position.no_amount;
    ctx.market = checked.market;
    ctx.user_position.yes_amount = 0;
    ctx.user_position.no_amount = 0;

    let mut transfers: Vec<Transfer> = Vec::new();
    transfers.push(
        signer_transfer(
            &ctx.yes_token_account,
            &ctx.user_token_account.key,
            &ctx.authority,
            bump_seed,
            yes_withdraw,
        ),
    );
    transfers.push(
        signer_transfer(
            &ctx.no_token_account,
            &ctx.user_token_account.key,
            &ctx.authority,
            bump_seed,
            no_withdraw,
        ),
    );
    assert(transfers@ =~= withdraw_outcome(*old(ctx), now).unwrap().1);
    Ok(transfers)
}

/// A withdrawal goes through only on a market that the finalize check at
/// `now` finds void and final, and hands back the position's two amounts
/// exactly, with no fee. It leaves the market as that check does, so a final
/// market as it is, and empties the position.
pub proof fn lemma_withdraw_returns_deposits(ctx: Withdraw, now: u64)
    requires
        withdraw_outcome(ctx, now) is Ok,
    ensures
        ({
            let (after, transfers) = withdraw_outcome(ctx, now)->Ok_0;
            &&& ctx.market.final_at(now)
            &&& ctx.market.after_check(now) == Ok::<Market, ErrorCode>(after.market)
            &&& ctx.market.finalized ==> after.market == ctx.market
            &&& after.market.finalized
            &&& after.market.outcome == Outcome::Invalid
            &&& transfers.len() == 2
            &&& transfers[0].amount == ctx.user_position.yes_amount
            &&& transfers[1].amount == ctx.user_position.no_amount
            &&& after.user_position.yes_amount == 0
            &&& after.user_position.no_amount == 0
        }),
{
}

/// A market that is not void, or not final, after the finalize check lets
/// nothing out.
pub proof fn lemma_withdraw_needs_void_final_market(ctx: Withdraw, now: u64)
    requires
        ctx.market.after_check(now) matches Ok(market) ==> !(market.finalized && market.outcome
            == Outcome::Invalid),
    ensures
        withdraw_outcome(ctx, now) is Err,
{
}

} // verus!

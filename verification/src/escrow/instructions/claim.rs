//! Paying out the winners of a market.

use vstd::prelude::*;

use crate::common::bps::{lemma_fee_at_most_amount, spec_fee};
use crate::common::pubkey::Pubkey;
use crate::escrow::error::ErrorCode;
use crate::escrow::state::global_state::GlobalState;
use crate::escrow::state::market::Market;
use crate::escrow::state::outcome::Outcome;
use crate::escrow::state::user_position::UserPosition;
use crate::escrow::utils::{signer_transfer, to_u128, to_u64, TokenAccount, Transfer};

verus! {

/// Allows users to claim their winnings.
#[derive(Clone, Copy, Debug)]
pub struct Claim {
    /// The market to claim winnings for.
    pub market: Market,
    /// The user claiming winnings.
    pub user: Pubkey,
    /// The user's position for this market.
    pub user_position: UserPosition,
    /// The user's token account.
    pub user_token_account: TokenAccount,
    /// Escrow for tokens on the yes side of the market.
    pub yes_token_account: Pubkey,
    /// Escrow for tokens on the no side of the market.
    pub no_token_account: Pubkey,
    /// The fee account that receive protocol fees.
    pub fee_account: TokenAccount,
    /// The authority for the market token accounts.
    pub authority: Pubkey,
    /// The bump seed of the authority, where the host has found it.
    pub authority_bump: Option<u8>,
    /// The global state account.
    pub global_state: GlobalState,
}

/// What a winner is paid.
#[derive(Clone, Copy, Debug, PartialEq, Eq, Structural)]
pub struct Payout {
    /// The winner's share of the losing pool, before the fee.
    pub gross: u64,
    /// The protocol fee on the share.
    pub fee: u64,
    /// The share less the fee.
    pub net: u64,
    /// What the winner had put on the winning side.
    pub principal: u64,
}

/// The share of the losing `pool` that falls to `won` out of the `filled`
/// tokens on the winning side: `pool * won / filled`, rounded down.
pub open spec fn spec_winnings(pool: int, won: int, filled: int) -> int
    recommends
        filled > 0,
{
    (pool * won) / filled
}

/// What a position of `won` on the winning side is paid out of the losing
/// `pool` at the fee rate `bps`, or the reason why it cannot be computed: no
/// tokens on the winning side, or a share that does not fit in 64 bits.
pub open spec fn spec_payout(pool: u64, won: u64, filled: u64, bps: nat) -> Result<
    Payout,
    ErrorCode,
> {
    let gross = spec_winnings(pool as int, won as int, filled as int);
    if filled == 0 {
        Err(ErrorCode::CalculationFailure)
    } else if gross > u64::MAX {
        Err(ErrorCode::ConversionFailure)
    } else {
        Ok(
            Payout {
                gross: gross as u64,
                fee: spec_fee(gross, bps as int) as u64,
                net: (gross - spec_fee(gross, bps as int)) as u64,
                principal: won,
            },
        )
    }
}

/// The accounts and the transfers after a claim at `now`, or the reason why
/// it is refused.
///
/// The market must be final, by the finalize check at `now`, with a yes or
/// a no outcome. The position is emptied. A position with nothing on the
/// winning side is paid nothing; any other is paid by three transfers: the
/// fee from the losing escrow to the fee account, the net winnings from the
/// losing escrow to the user, and the principal from the winning escrow to
/// the user.
pub open spec fn claim_outcome(ctx: Claim, now: u64) -> Result<(Claim, Seq<Transfer>), ErrorCode> {
    if ctx.check_accounts() is Err {
        Err(ctx.check_accounts()->Err_0)
    } else if ctx.market.after_check(now) is Err {
        Err(ctx.market.after_check(now)->Err_0)
    } else {
        let market = ctx.market.after_check(now)->Ok_0;
        let after = Claim { market, user_position: ctx.user_position.cleared(), ..ctx };
        if !market.finalized {
            Err(ErrorCode::NotFinalized)
        } else if !market.outcome.is_binary() {
            Err(ErrorCode::CannotClaim)
        } else if ctx.won(market.outcome) == 0 {
            Ok((after, Seq::empty()))
        } else {
            match spec_payout(
                ctx.losing_pool(market.outcome),
                ctx.won(market.outcome),
                ctx.winning_filled(market.outcome),
                ctx.global_state.protocol_fee_bps@,
            ) {
                Err(e) => Err(e),
                Ok(payout) => {
                    if ctx.authority_bump is None {
                        Err(ErrorCode::MissingBumpSeed)
                    } else {
                        Ok((after, ctx.transfers(market.outcome, payout)))
                    }
                },
            }
        }
    }
}

/// What a claim at `now` does and returns: on success the accounts and the
/// transfers are those of [`claim_outcome`]; on failure the accounts are
/// untouched and the error is its error.
pub open spec fn claimed(
    before: Claim,
    now: u64,
    after: Claim,
    res: Result<Vec<Transfer>, ErrorCode>,
) -> bool {
    match claim_outcome(before, now) {
        Ok((ctx, transfers)) => after == ctx && res is Ok && res->Ok_0@ == transfers,
        Err(e) => after == before && res == Err::<Vec<Transfer>, ErrorCode>(e),
    }
}

impl Claim {
    /// Whether the accounts are the ones that the claim is entitled to: the
    /// user's token account is the user's own and no escrow, the two escrows
    /// are the market's, and the fee account is the fee wallet's account for
    /// the market's token.
    pub open spec fn check_accounts(&self) -> Result<(), ErrorCode> {
        if self.user_token_account.key == self.yes_token_account || self.user_token_account.key
            == self.no_token_account {
            Err(ErrorCode::UserAccountCannotBeMarketAccount)
        } else if self.user_token_account.owner != self.user {
            Err(ErrorCode::UserAccountIncorrectOwner)
        } else if self.yes_token_account != self.market.yes_token_account {
            Err(ErrorCode::IncorrectYesEscrow)
        } else if self.no_token_account != self.market.no_token_account {
            Err(ErrorCode::IncorrectNoEscrow)
        } else if self.fee_account.owner != self.global_state.fee_wallet {
            Err(ErrorCode::AccountNotOwnedByFeeWallet)
        } else if self.fee_account.mint != self.market.token_mint {
            Err(ErrorCode::AssociatedTokenAccountRequired)
        } else {
            Ok(())
        }
    }

    /// What the user holds on the side that `outcome` names.
    pub open spec fn won(&self, outcome: Outcome) -> u64 {
        if outcome == Outcome::Yes {
            self.user_position.yes_amount
        } else {
            self.user_position.no_amount
        }
    }

    /// What the market holds on the side that `outcome` names.
    pub open spec fn winning_filled(&self, outcome: Outcome) -> u64 {
        if outcome == Outcome::Yes {
            self.market.yes_filled
        } else {
            self.market.no_filled
        }
    }

    /// What the market holds on the side that lost to `outcome`.
    pub open spec fn losing_pool(&self, outcome: Outcome) -> u64 {
        if outcome == Outcome::Yes {
            self.market.no_filled
        } else {
            self.market.yes_filled
        }
    }

    /// The escrow of the side that `outcome` names.
    pub open spec fn winning_escrow(&self, outcome: Outcome) -> Pubkey {
        if outcome == Outcome::Yes {
            self.yes_token_account
        } else {
            self.no_token_account
        }
    }

    /// The escrow of the side that lost to `outcome`.
    pub open spec fn losing_escrow(&self, outcome: Outcome) -> Pubkey {
        if outcome == Outcome::Yes {
            self.no_token_account
        } else {
            self.yes_token_account
        }
    }

    /// The three transfers that pay `payout`: fee, net winnings, principal.
    pub open spec fn transfers(&self, outcome: Outcome, payout: Payout) -> Seq<Transfer> {
        seq![
            Transfer {
                from: self.losing_escrow(outcome),
                to: self.fee_account.key,
                authority: self.authority,
                amount: payout.fee,
                signer_bump: self.authority_bump,
            },
            Transfer {
                from: self.losing_escrow(outcome),
                to: self.user_token_account.key,
                authority: self.authority,
                amount: payout.net,
                signer_bump: self.authority_bump,
            },
            Transfer {
                from: self.winning_escrow(outcome),
                to: self.user_token_account.key,
                authority: self.authority,
                amount: payout.principal,
                signer_bump: self.authority_bump,
            },
        ]
    }

    /// Checks that the accounts are the ones that the claim is entitled to.
    pub fn validate(&self) -> (res: Result<(), ErrorCode>)
        ensures
            res == self.check_accounts(),
    {
        if self.user_token_account.key == self.yes_token_account || self.user_token_account.key
            == self.no_token_account {
            return Err(ErrorCode::UserAccountCannotBeMarketAccount);
        }
        if self.user_token_account.owner != self.user {
            return Err(ErrorCode::UserAccountIncorrectOwner);
        }
        if self.yes_token_account != self.market.yes_token_account {
            return Err(ErrorCode::IncorrectYesEscrow);
        }
        if self.no_token_account != self.market.no_token_account {
            return Err(ErrorCode::IncorrectNoEscrow);
        }
        if self.fee_account.owner != self.global_state.fee_wallet {
            return Err(ErrorCode::AccountNotOwnedByFeeWallet);
        }
        if self.fee_account.mint != self.market.token_mint {
            return Err(ErrorCode::AssociatedTokenAccountRequired);
        }
        Ok(())
    }
}

/// The share of `pool` that falls to `winning_num` out of `winning_denom`,
/// rounded down; `None` where the product leaves 128 bits or the
/// denominator is zero.
pub fn compute_winnings(winning_num: u128, winning_denom: u128, pool: u128) -> (res: Option<u128>)
    ensures
        pool * winning_num > u128::MAX || winning_denom == 0 ==> res.is_none(),
        pool * winning_num <= u128::MAX && winning_denom != 0 ==> res == Some(
            spec_winnings(pool as int, winning_num as int, winning_denom as int) as u128,
        ),
{
    match pool.checked_mul(winning_num) {
        Some(product) => product.checked_div(winning_denom),
        None => None,
    }
}

/// Computes what a position of `won` on the winning side is paid out of the
/// losing `pool`, at the fee rate of `global_state`.
pub fn compute_payout(pool: u64, won: u64, filled: u64, global_state: &GlobalState) -> (res:
    Result<Payout, ErrorCode>)
    ensures
        res == spec_payout(pool, won, filled, global_state.protocol_fee_bps@),
{
    proof {
        assert(0 <= pool * won <= u128::MAX) by (nonlinear_arith)
            requires
                0 <= pool <= u64::MAX,
                0 <= won <= u64::MAX,
        ;
    }
    let pool_wide: u128 = match to_u128(pool) {
        Ok(wide) => wide,
        Err(e) => {
            return Err(e);
        },
    };
    let won_wide: u128 = match to_u128(won) {
        Ok(wide) => wide,
        Err(e) => {
            return Err(e);
        },
    };
    let filled_wide: u128 = match to_u128(filled) {
        Ok(wide) => wide,
        Err(e) => {
            return Err(e);
        },
    };
    let winnings: u64 = match compute_winnings(won_wide, filled_wide, pool_wide) {
        Some(wide) => match to_u64(wide) {
            Ok(winnings) => winnings,
            Err(e) => {
                return Err(e);
            },
        },
        None => {
            return Err(ErrorCode::CalculationFailure);
        },
    };
    // Compute fees.
    let fee: u64 = global_state.protocol_fee_bps.fee(winnings);
    // Take fee from winnings.
    let remaining_winnings: u64 = winnings.saturating_sub(fee);
    Ok(Payout { gross: winnings, fee, net: remaining_winnings, principal: won })
}

/// Pays out a user's winnings at `now`: empties the position and returns
/// the transfers that pay it. A refused claim changes nothing.
pub fn handler(ctx: &mut Claim, now: u64) -> (res: Result<Vec<Transfer>, ErrorCode>)
    ensures
        claimed(*old(ctx), now, *final(ctx), res),
{
    match ctx.validate() {
        Ok(()) => {},
        Err(e) => {
            return Err(e);
        },
    }
    let mut market = ctx.market;
    match market.is_finalized(now) {
        Ok(true) => {},
        Ok(false) => {
            return Err(ErrorCode::NotFinalized);
        },
        Err(e) => {
            return Err(e);
        },
    }

    let (winning_numer, winning_denom, pool, winning_holdings, losing_holdings) =
        match market.outcome {
        Outcome::Yes => (
            ctx.user_position.yes_amount,
            market.yes_filled,
            market.no_filled,
            ctx.yes_token_account,
            ctx.no_token_account,
        ),
        Outcome::No => (
            ctx.user_position.no_amount,
            market.no_filled,
            market.yes_filled,
            ctx.no_token_account,
            ctx.yes_token_account,
        ),
        Outcome::Invalid | Outcome::Open => {
            return Err(ErrorCode::CannotClaim);
        },
    };

    let mut transfers: Vec<Transfer> = Vec::new();

    // If the winning side was 0 we can exit early.
    if winning_numer == 0 {
        // Reset the user position.
        ctx.market = market;
        ctx.user_position.yes_amount = 0;
        ctx.user_position.no_amount = 0;
        assert(transfers@ =~= Seq::<Transfer>::empty());
        return Ok(transfers);
    }

    let payout = match compute_payout(pool, winning_numer, winning_denom, &ctx.global_state) {
        Ok(payout) => payout,
        Err(e) => {
            return Err(e);
        },
    };

    let bump: u8 = match ctx.authority_bump {
        Some(bump) => bump,
        None => {
            return Err(ErrorCode::MissingBumpSeed);
        },
    };

    // Reset the user position.
    ctx.market = market;
    ctx.user_position.yes_amount = 0;
    ctx.user_position.no_amount = 0;

    // Transfer fee to the fee wallet.
    transfers.push(
        signer_transfer(&losing_holdings, &ctx.fee_account.key, &ctx.authority, bump, payout.fee),
    );
    // Transfer winnings to the user wallet.
    transfers.push(
        signer_transfer(
            &losing_holdings,
            &ctx.user_token_account.key,
            &ctx.authority,
            bump,
            payout.net,
        ),
    );
    // Transfer the principal to the user wallet.
    transfers.push(
        signer_transfer(
            &winning_holdings,
            &ctx.user_token_account.key,
            &ctx.authority,
            bump,
            payout.principal,
        ),
    );
    assert(transfers@ =~= claim_outcome(*old(ctx), now).unwrap().1);
    Ok(transfers)
}

/// A claim on a final yes or no market by a position that holds `w` on the
/// winning side, with `w` above zero, is paid by three transfers: out of the
/// losing escrow the fee and the net winnings, which together are the share
/// `floor(L * w / W)` of the losing pool `L` that falls to `w` out of the
/// winning side's `W`; out of the winning escrow the principal `w`. In all
/// they move `w` and the share, no more and no less.
pub proof fn lemma_claim_pays_principal_and_share(ctx: Claim, now: u64)
    requires
        claim_outcome(ctx, now) is Ok,
        ctx.won(ctx.market.after_check(now)->Ok_0.outcome) > 0,
        ctx.global_state.protocol_fee_bps@ <= 10_000,
    ensures
        ({
            let (after, transfers) = claim_outcome(ctx, now)->Ok_0;
            let outcome = after.market.outcome;
            let won = ctx.won(outcome);
            let gross = spec_winnings(
                ctx.losing_pool(outcome) as int,
                won as int,
                ctx.winning_filled(outcome) as int,
            );
            &&& transfers.len() == 3
            &&& transfers[0].amount == spec_fee(gross, ctx.global_state.protocol_fee_bps@ as int)
            &&& transfers[0].amount + transfers[1].amount == gross
            &&& transfers[2].amount == won
            &&& transfers[0].amount + transfers[1].amount + transfers[2].amount == won + gross
            &&& transfers[0].from == ctx.losing_escrow(outcome)
            &&& transfers[1].from == ctx.losing_escrow(outcome)
            &&& transfers[2].from == ctx.winning_escrow(outcome)
            &&& transfers[0].to == ctx.fee_account.key
            &&& transfers[1].to == ctx.user_token_account.key
            &&& transfers[2].to == ctx.user_token_account.key
        }),
{
    let outcome = ctx.market.after_check(now)->Ok_0.outcome;
    lemma_claim_conserves(
        ctx.losing_pool(outcome),
        ctx.won(outcome),
        ctx.winning_filled(outcome),
        ctx.global_state.protocol_fee_bps@,
    );
}

/// A claim goes through only on a market that the finalize check at `now`
/// finds final with a yes or a no outcome. It leaves the market as that
/// check does, so a final market as it is, empties the position, and
/// touches nothing else.
pub proof fn lemma_claim_keeps_the_books(ctx: Claim, now: u64)
    requires
        claim_outcome(ctx, now) is Ok,
    ensures
        ({
            let (after, transfers) = claim_outcome(ctx, now)->Ok_0;
            &&& ctx.market.after_check(now) == Ok::<Market, ErrorCode>(after.market)
            &&& after.market.finalized
            &&& after.market.outcome.is_binary()
            &&& ctx.market.finalized ==> after.market == ctx.market
            &&& after.market.yes_filled == ctx.market.yes_filled
            &&& after.market.no_filled == ctx.market.no_filled
            &&& after == Claim {
                market: after.market,
                user_position: ctx.user_position.cleared(),
                ..ctx
            }
            &&& transfers.len() == 0 <==> ctx.won(after.market.outcome) == 0
        }),
{
}

/// On a sound market a claim is paid out of pools that are full: the
/// winning side and the losing pool hold their targets, so the share is
/// taken of what the market set out to raise.
pub proof fn lemma_claim_on_sound_market(ctx: Claim, now: u64)
    requires
        ctx.market.sound(),
        claim_outcome(ctx, now) is Ok,
    ensures
        ({
            let market = claim_outcome(ctx, now)->Ok_0.0.market;
            &&& market.sound()
            &&& market.yes_filled == market.yes_amount
            &&& market.no_filled == market.no_amount
        }),
{
}

/// What a claim pays adds up: fee and net winnings make the share exactly,
/// the fee is the rounded-up rate on the share, the share is the position's
/// part of the losing pool rounded down, and the three transfers move the
/// principal and the share, no more and no less.
pub proof fn lemma_claim_conserves(pool: u64, won: u64, filled: u64, bps: nat)
    requires
        bps <= 10_000,
        spec_payout(pool, won, filled, bps) is Ok,
    ensures
        ({
            let payout = spec_payout(pool, won, filled, bps)->Ok_0;
            &&& payout.gross == spec_winnings(pool as int, won as int, filled as int)
            &&& payout.fee == spec_fee(payout.gross as int, bps as int)
            &&& payout.fee + payout.net == payout.gross
            &&& payout.fee + payout.net + payout.principal == won + payout.gross
        }),
{
    let gross = spec_winnings(pool as int, won as int, filled as int);
    assert(0 <= pool * won) by (nonlinear_arith);
    assert(0 <= gross) by (nonlinear_arith)
        requires
            0 <= pool * won,
            filled > 0,
            gross == (pool * won) / (filled as int),
    ;
    lemma_fee_at_most_amount(gross as u64, bps as u16);
}

/// No claim takes more than the losing pool: a position that is part of the
/// winning side is paid a share of at most the whole pool.
pub proof fn lemma_share_within_pool(pool: u64, won: u64, filled: u64)
    requires
        0 < filled,
        won <= filled,
    ensures
        0 <= spec_winnings(pool as int, won as int, filled as int) <= pool,
{
    let f = filled as int;
    assert(0 <= pool * won <= pool * f) by (nonlinear_arith)
        requires
            0 <= won <= f,
            0 <= pool,
    ;
    assert((pool * won) / f <= pool && 0 <= (pool * won) / f) by (nonlinear_arith)
        requires
            0 <= pool * won <= pool * f,
            f > 0,
    ;
}

} // verus!

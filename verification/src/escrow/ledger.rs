//! The books of a market: what all its positions hold, against what the
//! market has taken in.
//!
//! A position is a claim on the escrows. The operations keep the claims
//! covered: the positions on a side never add up to more than the side has
//! been filled with, and the winners' shares never add up to more than the
//! losing pool.

use vstd::prelude::*;

use crate::escrow::instructions::claim::{claim_outcome, spec_winnings, Claim};
use crate::escrow::instructions::deposit::{deposit_outcome, Deposit, DepositParams};
use crate::escrow::instructions::withdraw::{withdraw_outcome, Withdraw};
use crate::escrow::state::market::Market;
use crate::escrow::state::user_position::UserPosition;

verus! {

/// The sum of the amounts.
pub open spec fn total(amounts: Seq<u64>) -> int
    decreases amounts.len(),
{
    if amounts.len() == 0 {
        0
    } else {
        total(amounts.drop_last()) + amounts.last()
    }
}

/// What each of the positions holds of the yes side.
pub open spec fn yes_amounts(positions: Seq<UserPosition>) -> Seq<u64> {
    positions.map_values(|position: UserPosition| position.yes_amount)
}

/// What each of the positions holds of the no side.
pub open spec fn no_amounts(positions: Seq<UserPosition>) -> Seq<u64> {
    positions.map_values(|position: UserPosition| position.no_amount)
}

/// Whether the market has taken in, on each side, at least what the
/// positions hold of it.
pub open spec fn covered(market: Market, positions: Seq<UserPosition>) -> bool {
    &&& total(yes_amounts(positions)) <= market.yes_filled
    &&& total(no_amounts(positions)) <= market.no_filled
}

/// What the holders of `amounts` on the winning side, which was filled with
/// `filled`, are owed of the losing `pool`: the sum of their shares.
pub open spec fn shares(pool: int, filled: int, amounts: Seq<u64>) -> int
    decreases amounts.len(),
{
    if amounts.len() == 0 {
        0
    } else {
        shares(pool, filled, amounts.drop_last()) + spec_winnings(
            pool,
            amounts.last() as int,
            filled,
        )
    }
}

/// Replacing one amount changes the sum by what that amount gained or lost.
pub proof fn lemma_total_after_update(amounts: Seq<u64>, i: int, amount: u64)
    requires
        0 <= i < amounts.len(),
    ensures
        total(amounts.update(i, amount)) == total(amounts) - amounts[i] + amount,
    decreases amounts.len(),
{
    let updated = amounts.update(i, amount);
    if i == amounts.len() - 1 {
        assert(updated.drop_last() =~= amounts.drop_last());
    } else {
        lemma_total_after_update(amounts.drop_last(), i, amount);
        assert(updated.drop_last() =~= amounts.drop_last().update(i, amount));
    }
}

/// Replacing one position keeps the others covered where the market's
/// books grow by at least what the position gains on each side.
pub proof fn lemma_cover_after_update(
    market: Market,
    positions: Seq<UserPosition>,
    i: int,
    after_market: Market,
    after_position: UserPosition,
)
    requires
        0 <= i < positions.len(),
        covered(market, positions),
        after_position.yes_amount - positions[i].yes_amount <= after_market.yes_filled
            - market.yes_filled,
        after_position.no_amount - positions[i].no_amount <= after_market.no_filled
            - market.no_filled,
    ensures
        covered(after_market, positions.update(i, after_position)),
{
    let updated = positions.update(i, after_position);
    assert(yes_amounts(updated) =~= yes_amounts(positions).update(i, after_position.yes_amount));
    assert(no_amounts(updated) =~= no_amounts(positions).update(i, after_position.no_amount));
    lemma_total_after_update(yes_amounts(positions), i, after_position.yes_amount);
    lemma_total_after_update(no_amounts(positions), i, after_position.no_amount);
}

/// A deposit keeps the positions covered: it adds to the market's books
/// what it adds to the position.
pub proof fn lemma_deposit_keeps_cover(
    ctx: Deposit,
    params: DepositParams,
    now: u64,
    positions: Seq<UserPosition>,
    i: int,
)
    requires
        0 <= i < positions.len(),
        positions[i] == ctx.user_position,
        covered(ctx.market, positions),
        deposit_outcome(ctx, params, now) is Ok,
    ensures
        ({
            let after = deposit_outcome(ctx, params, now)->Ok_0.0;
            covered(after.market, positions.update(i, after.user_position))
        }),
{
    let after = deposit_outcome(ctx, params, now)->Ok_0.0;
    lemma_cover_after_update(ctx.market, positions, i, after.market, after.user_position);
}

/// A claim keeps the positions covered: it empties the position and leaves
/// the market's books as they are.
pub proof fn lemma_claim_keeps_cover(ctx: Claim, now: u64, positions: Seq<UserPosition>, i: int)
    requires
        0 <= i < positions.len(),
        positions[i] == ctx.user_position,
        covered(ctx.market, positions),
        claim_outcome(ctx, now) is Ok,
    ensures
        ({
            let after = claim_outcome(ctx, now)->Ok_0.0;
            covered(after.market, positions.update(i, after.user_position))
        }),
{
    let after = claim_outcome(ctx, now)->Ok_0.0;
    lemma_cover_after_update(ctx.market, positions, i, after.market, after.user_position);
}

/// A withdrawal keeps the positions covered: it empties the position and
/// leaves the market's books as they are.
pub proof fn lemma_withdraw_keeps_cover(
    ctx: Withdraw,
    now: u64,
    positions: Seq<UserPosition>,
    i: int,
)
    requires
        0 <= i < positions.len(),
        positions[i] == ctx.user_position,
        covered(ctx.market, positions),
        withdraw_outcome(ctx, now) is Ok,
    ensures
        ({
            let after = withdraw_outcome(ctx, now)->Ok_0.0;
            covered(after.market, positions.update(i, after.user_position))
        }),
{
    let after = withdraw_outcome(ctx, now)->Ok_0.0;
    lemma_cover_after_update(ctx.market, positions, i, after.market, after.user_position);
}

/// The shares of any holders are together no more than the share of what
/// they hold together: rounding down never creates tokens.
pub proof fn lemma_shares_at_most_share_of_total(pool: u64, filled: u64, amounts: Seq<u64>)
    requires
        0 < filled,
    ensures
        0 <= total(amounts),
        shares(pool as int, filled as int, amounts) <= spec_winnings(
            pool as int,
            total(amounts),
            filled as int,
        ),
    decreases amounts.len(),
{
    let f = filled as int;
    if amounts.len() == 0 {
        assert(pool * 0 == 0) by (nonlinear_arith);
        assert(0int / f == 0) by (nonlinear_arith)
            requires
                f > 0,
        ;
    } else {
        let rest = amounts.drop_last();
        lemma_shares_at_most_share_of_total(pool, filled, rest);
        let a = pool * total(rest);
        let b = pool * amounts.last();
        assert(pool * total(amounts) == a + b) by (nonlinear_arith)
            requires
                a == pool * total(rest),
                b == pool * amounts.last(),
                total(amounts) == total(rest) + amounts.last(),
        ;
        assert(a / f + b / f <= (a + b) / f) by (nonlinear_arith)
            requires
                f > 0,
        ;
    }
}

/// The winners cannot drain more than the losing pool: where what they hold
/// of the winning side is covered by what the side was filled with, their
/// shares of the losing pool add up to the pool at most.
pub proof fn lemma_winners_share_the_pool(pool: u64, filled: u64, amounts: Seq<u64>)
    requires
        0 < filled,
        total(amounts) <= filled,
    ensures
        shares(pool as int, filled as int, amounts) <= pool,
{
    let f = filled as int;
    let held = total(amounts);
    lemma_shares_at_most_share_of_total(pool, filled, amounts);
    assert(0 <= pool * held <= pool * f) by (nonlinear_arith)
        requires
            0 <= held <= f,
            0 <= pool,
    ;
    assert((pool * held) / f <= pool) by (nonlinear_arith)
        requires
            0 <= pool * held <= pool * f,
            f > 0,
    ;
}

} // verus!

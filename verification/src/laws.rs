//! What holds of the transitions of [`MarketModel`], whatever the numbers.

use crate::system::{payout, MarketError, MarketModel, Side};
use crate::uint::limit256;
use vstd::arithmetic::div_mod::{
    lemma_div_is_ordered, lemma_div_multiples_vanish, lemma_remainder,
};
use vstd::arithmetic::mul::lemma_mul_is_commutative;
use vstd::prelude::*;

verus! {

/// The market after a sequence of observed prices, taken in one after the
/// other. A price that is refused leaves the market as it was.
pub open spec fn after_prices(market: MarketModel, prices: Seq<nat>) -> MarketModel
    decreases prices.len(),
{
    if prices.len() == 0 {
        market
    } else {
        let next = match market.price_change(prices[0]) {
            Ok(changed) => changed,
            Err(_) => market,
        };
        after_prices(next, prices.drop_first())
    }
}

/// Whether a side has shares exactly where it has liquidity.
pub open spec fn side_is_backed(market: MarketModel, side: Side) -> bool {
    market.supply(side) == 0 <==> market.liquidity(side) == 0
}

/// A pool never pays more than it holds.
pub proof fn lemma_payout_bounded(pool: nat, numerator: nat, denominator: nat)
    requires
        (pool * numerator) / denominator >= pool,
    ensures
        payout(pool, numerator, denominator) <= pool,
{
}

/// A price change moves liquidity between the sides and neither makes nor
/// loses any: the sum of the two pools after it is the sum before it, also
/// where the losing side is emptied. The share supplies stay as they are.
pub proof fn lemma_price_change_conserves_liquidity(market: MarketModel, new_price: nat)
    ensures
        match market.price_change(new_price) {
            Ok(changed) => {
                &&& changed.total_liquidity() == market.total_liquidity()
                &&& changed.long_total_supply == market.long_total_supply
                &&& changed.short_total_supply == market.short_total_supply
                &&& changed.price == new_price
            },
            Err(e) => e == MarketError::InvalidPrice || e == MarketError::ArithmeticOverflow,
        },
{
    if new_price != 0 && market.price != 0 {
        if new_price > market.price {
            crate::system::lemma_grown_at_least(market.short_liquidity, new_price, market.price);
        } else if new_price < market.price {
            crate::system::lemma_grown_at_least(market.long_liquidity, market.price, new_price);
        }
    }
}

/// Any sequence of price changes leaves the liquidity of both sides together,
/// and the share supplies, as they were before the first.
pub proof fn lemma_price_changes_conserve_liquidity(market: MarketModel, prices: Seq<nat>)
    ensures
        after_prices(market, prices).total_liquidity() == market.total_liquidity(),
        after_prices(market, prices).long_total_supply == market.long_total_supply,
        after_prices(market, prices).short_total_supply == market.short_total_supply,
    decreases prices.len(),
{
    if prices.len() > 0 {
        lemma_price_change_conserves_liquidity(market, prices[0]);
        let next = match market.price_change(prices[0]) {
            Ok(changed) => changed,
            Err(_) => market,
        };
        lemma_price_changes_conserve_liquidity(next, prices.drop_first());
    }
}

/// Taking in the price that the market already has changes nothing.
pub proof fn lemma_equal_price_changes_nothing(market: MarketModel)
    requires
        market.price != 0,
    ensures
        market.price_change(market.price) matches Ok(same) && same == market,
{
}

/// The first deposit on a side mints as many shares as was deposited, and a
/// side that held nothing then holds exactly the deposit.
pub proof fn lemma_first_deposit_bootstraps(market: MarketModel, side: Side, amount: nat)
    requires
        market.supply(side) == 0,
        0 < amount,
        market.liquidity(side) + amount < limit256(),
    ensures
        market.deposit(side, amount) matches Ok((deposited, minted)) && {
            &&& minted == amount
            &&& deposited == market.with_side(side, market.liquidity(side) + amount, amount)
            &&& market.liquidity(side) == 0 ==> deposited.liquidity(side) == amount
        },
{
}

/// A deposit does not lower what stands behind each share: liquidity per
/// share after it is at least liquidity per share before it.
pub proof fn lemma_deposit_keeps_share_value(market: MarketModel, side: Side, amount: nat)
    requires
        side_is_backed(market, side),
        market.deposit(side, amount) is Ok,
    ensures
        ({
            let after = market.deposit(side, amount)->Ok_0.0;
            after.liquidity(side) * market.supply(side) >= market.liquidity(side) * after.supply(
                side,
            )
        }),
{
    let liquidity = market.liquidity(side);
    let supply = market.supply(side);
    let after = market.deposit(side, amount)->Ok_0.0;
    if supply == 0 {
        assert(after.liquidity(side) * supply == 0) by (nonlinear_arith)
            requires
                supply == 0,
        ;
        assert(liquidity * after.supply(side) == 0) by (nonlinear_arith)
            requires
                liquidity == 0,
        ;
    } else {
        let new_liquidity = liquidity + amount;
        let new_supply = (supply * new_liquidity) / liquidity;
        lemma_remainder((supply * new_liquidity) as int, liquidity as int);
        assert(new_supply * liquidity <= supply * new_liquidity);
        lemma_mul_is_commutative(new_supply as int, liquidity as int);
        lemma_mul_is_commutative(supply as int, new_liquidity as int);
    }
}

/// Depositing and at once withdrawing all the shares minted gives back no
/// more than was deposited, and leaves the side with the shares it had and
/// the rest of the market as it was. What rounding keeps back stays in the
/// pool, and is less than one share was worth after the deposit: times the
/// shares after the deposit, it is less than the liquidity before it.
pub proof fn lemma_deposit_then_withdraw(market: MarketModel, side: Side, amount: nat)
    requires
        side_is_backed(market, side),
        market.deposit(side, amount) is Ok,
    ensures
        market.deposit(side, amount) matches Ok((deposited, minted)) && deposited.withdraw(
            side,
            minted,
        ) matches Ok((withdrawn, released)) && {
            &&& released <= amount
            &&& withdrawn.liquidity(side) == market.liquidity(side) + (amount - released)
            &&& withdrawn.supply(side) == market.supply(side)
            &&& (amount - released) * deposited.supply(side) <= market.liquidity(side)
            &&& market.liquidity(side) > 0 ==> (amount - released) * deposited.supply(side)
                < market.liquidity(side)
            &&& withdrawn.liquidity(other_side(side)) == market.liquidity(other_side(side))
            &&& withdrawn.supply(other_side(side)) == market.supply(other_side(side))
            &&& withdrawn.price == market.price
        },
{
    let l0 = market.liquidity(side);
    let t0 = market.supply(side);
    let (deposited, minted) = market.deposit(side, amount)->Ok_0;
    let l1 = deposited.liquidity(side);
    let t1 = deposited.supply(side);
    assert(l1 == l0 + amount);
    assert(t1 == t0 + minted);
    assert(minted > 0);
    let kept = (l1 * t0) / t1;
    crate::system::lemma_shrunk_at_most(l1, t0, t1);
    assert(deposited.withdraw(side, minted) is Ok);
    let (withdrawn, released) = deposited.withdraw(side, minted)->Ok_0;
    assert(withdrawn.supply(side) == t0);
    assert(withdrawn.liquidity(side) == kept);
    assert(withdrawn.liquidity(other_side(side)) == market.liquidity(other_side(side)));
    assert(withdrawn.supply(other_side(side)) == market.supply(other_side(side)));
    if t0 == 0 {
        assert(l1 * t0 == 0) by (nonlinear_arith)
            requires
                t0 == 0,
        ;
        assert(kept == 0);
        assert(l0 == 0);
        assert((amount - released) * t1 == 0) by (nonlinear_arith)
            requires
                amount - released == 0,
        ;
    } else {
        // t1 is (t0 * l1) / l0 rounded down.
        lemma_remainder((t0 * l1) as int, l0 as int);
        lemma_mul_is_commutative(t0 as int, l1 as int);
        assert(t1 * l0 <= l1 * t0 < t1 * l0 + l0);
        // So l1 * t0 / t1 is at least l0 ...
        lemma_mul_is_commutative(t1 as int, l0 as int);
        lemma_div_is_ordered((l0 * t1) as int, (l1 * t0) as int, t1 as int);
        lemma_div_multiples_vanish(l0 as int, t1 as int);
        lemma_mul_is_commutative(l0 as int, t1 as int);
        assert(kept >= l0);
        // ... and exceeds it by less than l0 / t1.
        lemma_remainder((l1 * t0) as int, t1 as int);
        assert(kept * t1 <= l1 * t0);
        assert((kept - l0) * t1 < l0) by (nonlinear_arith)
            requires
                kept * t1 <= l1 * t0,
                l1 * t0 < t1 * l0 + l0,
        ;
        assert(amount - released == kept - l0);
    }
}

/// The side that is not `side`.
pub open spec fn other_side(side: Side) -> Side {
    match side {
        Side::Long => Side::Short,
        Side::Short => Side::Long,
    }
}

/// Withdrawing all the shares of a side releases all its liquidity and
/// leaves the side empty.
pub proof fn lemma_full_withdrawal_empties_side(market: MarketModel, side: Side)
    requires
        market.supply(side) > 0,
    ensures
        market.withdraw(side, market.supply(side)) matches Ok((withdrawn, released)) && {
            &&& withdrawn == market.with_side(side, 0, 0)
            &&& released == market.liquidity(side)
        },
{
    assert(market.liquidity(side) * 0 == 0) by (nonlinear_arith);
}

/// A withdrawal never releases more than the shares' part of the liquidity
/// rounded up, nor less than that part rounded down: the liquidity left,
/// times the shares before, lies within one share count of the liquidity
/// before times the shares left.
pub proof fn lemma_withdrawal_is_proportional(market: MarketModel, side: Side, shares: nat)
    requires
        market.withdraw(side, shares) is Ok,
    ensures
        ({
            let (withdrawn, released) = market.withdraw(side, shares)->Ok_0;
            let left = withdrawn.liquidity(side);
            &&& released + left == market.liquidity(side)
            &&& left * market.supply(side) <= market.liquidity(side) * withdrawn.supply(side)
            &&& market.liquidity(side) * withdrawn.supply(side) < left * market.supply(side)
                + market.supply(side)
        }),
{
    let liquidity = market.liquidity(side);
    let supply = market.supply(side);
    let new_supply = (supply - shares) as nat;
    crate::system::lemma_shrunk_at_most(liquidity, new_supply, supply);
    lemma_remainder((liquidity * new_supply) as int, supply as int);
}

} // verus!

//! A market under a price that rises step by step, for plotting.

use crate::system::{
    lemma_grown_at_least, MarketModel, MarketState, ONE_CENT, ONE_TENTH_CENT,
};
use crate::uint::U256;
use vstd::prelude::*;

verus! {

/// The number of price steps of a simulation.
pub const PRICE_STEPS: u64 = 60;

/// The market that a simulation starts from.
pub open spec fn simulation_start() -> MarketModel {
    MarketModel {
        long_total_supply: 0,
        short_total_supply: 0,
        long_liquidity: 20_000,
        short_liquidity: 10_000,
        price: ONE_CENT as nat,
    }
}

/// The price after `step` steps: a tenth of a cent more with each.
pub open spec fn simulated_price(step: nat) -> nat {
    ONE_CENT as nat + ONE_TENTH_CENT as nat * step
}

/// `market` after its price rose to `new_price`, or `market` itself where
/// that is refused.
pub open spec fn risen(market: MarketModel, new_price: nat) -> MarketModel {
    match market.price_goes_up(new_price) {
        Ok(changed) => changed,
        Err(_) => market,
    }
}

/// The market after `step` steps. Step by step, each rise starts from the
/// market that the rise before it left; else each starts from the first
/// market and goes to the price of that step at once.
pub open spec fn simulated(incremental: bool, step: nat) -> MarketModel
    decreases step,
{
    if step == 0 {
        simulation_start()
    } else if incremental {
        risen(simulated(incremental, (step - 1) as nat), simulated_price(step))
    } else {
        risen(simulation_start(), simulated_price(step))
    }
}

/// The course of a simulation: for each step, the first market included, the
/// price and the liquidity of each side.
#[derive(Debug, Clone, PartialEq, Eq)]
pub struct Simulation {
    pub prices: Vec<U256>,
    pub long_liquidity: Vec<U256>,
    pub short_liquidity: Vec<U256>,
}

/// A rise from a market that holds 30 000 in all succeeds, and the market
/// keeps holding 30 000.
proof fn lemma_rise_succeeds(market: MarketModel, new_price: nat)
    requires
        market.total_liquidity() == 30_000,
        0 < market.price <= new_price,
    ensures
        market.price_goes_up(new_price) is Ok,
        risen(market, new_price).total_liquidity() == 30_000,
        risen(market, new_price).price == new_price,
{
    lemma_grown_at_least(market.short_liquidity, new_price, market.price);
}

/// Every market of a simulation holds 30 000 in all, at the price of its
/// step.
pub proof fn lemma_simulated_conserves(incremental: bool, step: nat)
    ensures
        simulated(incremental, step).total_liquidity() == 30_000,
        simulated(incremental, step).price == simulated_price(step),
    decreases step,
{
    if step > 0 {
        if incremental {
            lemma_simulated_conserves(incremental, (step - 1) as nat);
            lemma_rise_succeeds(simulated(incremental, (step - 1) as nat), simulated_price(step));
        } else {
            lemma_rise_succeeds(simulation_start(), simulated_price(step));
        }
    }
}

/// Runs a simulation of [`PRICE_STEPS`] steps: see [`simulated`].
pub fn symulate(incremental_mode: bool) -> (r: Simulation)
    ensures
        r.prices@.len() == PRICE_STEPS + 1,
        r.long_liquidity@.len() == PRICE_STEPS + 1,
        r.short_liquidity@.len() == PRICE_STEPS + 1,
        forall|k: int|
            0 <= k <= PRICE_STEPS ==> {
                &&& (#[trigger] r.prices@[k])@ == simulated_price(k as nat)
                &&& r.long_liquidity@[k]@ == simulated(incremental_mode, k as nat).long_liquidity
                &&& r.short_liquidity@[k]@ == simulated(incremental_mode, k as nat).short_liquidity
            },
{
    let mut state = MarketState {
        long_total_supply: U256::zero(),
        short_total_supply: U256::zero(),
        long_liquidity: U256::from_u64(20_000),
        short_liquidity: U256::from_u64(10_000),
        price: U256::from_u64(ONE_CENT),
    };
    let mut prices: Vec<U256> = Vec::new();
    let mut long_liquidity: Vec<U256> = Vec::new();
    let mut short_liquidity: Vec<U256> = Vec::new();
    prices.push(state.price);
    long_liquidity.push(state.long_liquidity);
    short_liquidity.push(state.short_liquidity);
    let mut i: u64 = 0;
    while i < PRICE_STEPS
        invariant
            i <= PRICE_STEPS,
            state@ == if incremental_mode {
                simulated(incremental_mode, i as nat)
            } else {
                simulation_start()
            },
            prices@.len() == i + 1,
            long_liquidity@.len() == i + 1,
            short_liquidity@.len() == i + 1,
            forall|k: int|
                0 <= k <= i ==> {
                    &&& (#[trigger] prices@[k])@ == simulated_price(k as nat)
                    &&& long_liquidity@[k]@ == simulated(incremental_mode, k as nat).long_liquidity
                    &&& short_liquidity@[k]@ == simulated(
                        incremental_mode,
                        k as nat,
                    ).short_liquidity
                },
        decreases PRICE_STEPS - i,
    {
        proof {
            lemma_simulated_conserves(incremental_mode, i as nat);
            lemma_simulated_conserves(incremental_mode, (i + 1) as nat);
            lemma_rise_succeeds(state@, simulated_price((i + 1) as nat));
        }
        let mut moved = state;
        let new_price = if incremental_mode {
            state.price.checked_add(U256::from_u64(ONE_TENTH_CENT)).unwrap()
        } else {
            U256::from_u64(ONE_CENT + ONE_TENTH_CENT * (i + 1))
        };
        let rise = moved.on_price_goes_up(new_price);
        assert(rise is Ok);
        if incremental_mode {
            state = moved;
        }
        prices.push(new_price);
        long_liquidity.push(moved.long_liquidity);
        short_liquidity.push(moved.short_liquidity);
        i += 1;
    }
    Simulation { prices, long_liquidity, short_liquidity }
}

} // verus!

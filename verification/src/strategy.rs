//! Trading strategies: each decides, from what a bot knows, what to do next.

use crate::models::{SystemStats, TradingAction};
use crate::uint::{lemma_u256_bound, limit256, w2, U256, U512};
use vstd::arithmetic::div_mod::{lemma_div_is_ordered, lemma_div_multiples_vanish};
use vstd::prelude::*;

verus! {

/// What the moving-average strategy trades at a time.
pub const TRADE_AMOUNT: u64 = 1_000_000;

/// The sum of the last `count` prices.
pub open spec fn tail_sum(prices: Seq<U256>, count: nat) -> nat
    recommends
        count <= prices.len(),
    decreases count,
{
    if count == 0 {
        0
    } else {
        tail_sum(prices, (count - 1) as nat) + prices[prices.len() - count]@
    }
}

/// The sum of the last `window` prices, or of all where there are fewer,
/// divided by `window` and rounded down.
pub open spec fn moving_average(prices: Seq<U256>, window: nat) -> nat {
    let count = if window <= prices.len() {
        window
    } else {
        prices.len()
    };
    tail_sum(prices, count) / window
}

/// Trades on the crossing of a short and a long moving average.
#[derive(Debug, Clone, Copy, PartialEq, Eq, Structural)]
pub struct MovingAverageStrategy {
    pub short_window: usize,
    pub long_window: usize,
}

impl MovingAverageStrategy {
    /// A strategy that compares the averages over the last `short_window` and
    /// the last `long_window` prices.
    pub fn new(short_window: usize, long_window: usize) -> (r: Self)
        ensures
            r.short_window == short_window,
            r.long_window == long_window,
    {
        Self { short_window, long_window }
    }

    /// The moving average of `prices` over `window`: see [`moving_average`].
    /// The sum is taken in 512 bits, so that it always fits.
    pub fn calculate_moving_average(prices: &[U256], window: usize) -> (r: U256)
        requires
            window > 0,
        ensures
            r@ == moving_average(prices@, window as nat),
    {
        let len = prices.len();
        let count = if window <= len {
            window
        } else {
            len
        };
        let mut sum = U512::zero();
        let mut i: usize = 0;
        while i < count
            invariant
                i <= count <= len,
                len == prices@.len(),
                sum@ == tail_sum(prices@, i as nat),
                sum@ <= i * (limit256() - 1),
            decreases count - i,
        {
            let price = prices[len - 1 - i];
            proof {
                lemma_u256_bound(price);
            }
            sum = sum.checked_add(price.widen()).unwrap();
            i += 1;
        }
        proof {
            let most = (window * (limit256() - 1)) as int;
            lemma_div_is_ordered(sum@ as int, most, window as int);
            lemma_div_multiples_vanish(limit256() - 1, window as int);
        }
        sum.checked_div(U512::from_u64(window as u64)).unwrap().narrow().unwrap()
    }

    /// Goes long where the short average is above the long one, short where
    /// it is below, and does nothing where they are equal or where there are
    /// fewer prices than the long window asks for.
    pub fn run_step(&self, prices: &[U256]) -> (r: Option<TradingAction>)
        requires
            self.short_window > 0,
            self.long_window > 0,
        ensures
            match r {
                Some(TradingAction::GoLong { amount }) => {
                    &&& amount@ == TRADE_AMOUNT
                    &&& prices@.len() >= self.long_window
                    &&& moving_average(prices@, self.short_window as nat) > moving_average(
                        prices@,
                        self.long_window as nat,
                    )
                },
                Some(TradingAction::GoShort { amount }) => {
                    &&& amount@ == TRADE_AMOUNT
                    &&& prices@.len() >= self.long_window
                    &&& moving_average(prices@, self.short_window as nat) < moving_average(
                        prices@,
                        self.long_window as nat,
                    )
                },
                Some(_) => false,
                None => prices@.len() < self.long_window || moving_average(
                    prices@,
                    self.short_window as nat,
                ) == moving_average(prices@, self.long_window as nat),
            },
    {
        if prices.len() < self.long_window {
            return None;
        }
        let short_ma = Self::calculate_moving_average(prices, self.short_window);
        let long_ma = Self::calculate_moving_average(prices, self.long_window);
        if long_ma.lt(short_ma) {
            Some(TradingAction::GoLong { amount: U256::from_u64(TRADE_AMOUNT) })
        } else if short_ma.lt(long_ma) {
            Some(TradingAction::GoShort { amount: U256::from_u64(TRADE_AMOUNT) })
        } else {
            None
        }
    }
}

/// Calls `rand::Rng::gen_range` on the generator of `rand::thread_rng` with
/// the range from zero up to `bound`, `bound` left out: some number of that
/// range.
#[verifier::external_body]
fn random_below(bound: u128) -> (r: u128)
    requires
        bound > 0,
    ensures
        r < bound,
{
    rand::Rng::gen_range(&mut rand::thread_rng(), 0..bound)
}

/// Some amount below `max`.
pub fn random(max: U256) -> (r: U256)
    requires
        0 < max@ < w2(),
    ensures
        r@ < max@,
{
    U256::from_u128(random_below(max.to_u128().unwrap()))
}

/// Whether an account with the balances of `stats` can carry out `action`
/// and keep something of the token that it sends.
pub open spec fn within_balance(stats: SystemStats, action: TradingAction) -> bool {
    match action {
        TradingAction::GoLong { amount } => amount@ < stats.wcspr_balance@,
        TradingAction::GoShort { amount } => amount@ < stats.wcspr_balance@,
        TradingAction::StopLong { amount } => amount@ < stats.long_balance@,
        TradingAction::StopShort { amount } => amount@ < stats.short_balance@,
    }
}

/// The option at `number`, or `None` where there is no such option.
pub fn pick(options: &Vec<TradingAction>, number: usize) -> (r: Option<TradingAction>)
    ensures
        r == if number < options@.len() {
            Some(options@[number as int])
        } else {
            None
        },
{
    if number < options.len() {
        Some(options[number])
    } else {
        None
    }
}

/// Trades a random part of a random balance.
#[derive(Debug, Clone, Copy, PartialEq, Eq, Structural)]
pub struct RandomTrader;

impl RandomTrader {
    pub fn new() -> (r: Self) {
        Self
    }

    /// Picks at random one of the trades that the balances allow: into a
    /// long or a short position with wrapped CSPR, or out of one with long or
    /// short tokens, each for a random amount below the balance. Does nothing
    /// exactly where all three balances are zero.
    pub fn run_step(&self, stats: &SystemStats) -> (r: Option<TradingAction>)
        requires
            stats.wcspr_balance@ < w2(),
            stats.long_balance@ < w2(),
            stats.short_balance@ < w2(),
        ensures
            r is None <==> stats.wcspr_balance@ == 0 && stats.long_balance@ == 0
                && stats.short_balance@ == 0,
            match r {
                Some(action) => within_balance(*stats, action),
                None => true,
            },
    {
        let mut options: Vec<TradingAction> = Vec::new();
        if !stats.wcspr_balance.is_zero() {
            options.push(TradingAction::GoLong { amount: random(stats.wcspr_balance) });
            options.push(TradingAction::GoShort { amount: random(stats.wcspr_balance) });
        }
        if !stats.long_balance.is_zero() {
            options.push(TradingAction::StopLong { amount: random(stats.long_balance) });
        }
        if !stats.short_balance.is_zero() {
            options.push(TradingAction::StopShort { amount: random(stats.short_balance) });
        }
        assert(forall|i: int|
            0 <= i < options@.len() ==> within_balance(*stats, #[trigger] options@[i]));
        if options.len() == 0 {
            None
        } else {
            let number = random_below(options.len() as u128) as usize;
            pick(&options, number)
        }
    }
}

} // verus!

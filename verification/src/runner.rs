//! What a bot's runner keeps between steps.

use crate::uint::U256;
use vstd::prelude::*;

verus! {

/// Where a bot takes its prices from.
#[derive(Debug, Clone, Copy, PartialEq, Eq, Structural)]
pub enum RunnerMode {
    Live,
    Backtesting,
}

impl RunnerMode {
    /// The mode that a command-line argument asks for: backtesting where it
    /// is the word `backtesting`, live where it is anything else or missing.
    pub fn from_arg(arg: Option<String>) -> (mode: RunnerMode)
        ensures
            mode == if arg matches Some(word) && word@ == "backtesting"@ {
                RunnerMode::Backtesting
            } else {
                RunnerMode::Live
            },
    {
        match arg {
            Some(word) => if word == "backtesting".to_string() {
                RunnerMode::Backtesting
            } else {
                RunnerMode::Live
            },
            None => RunnerMode::Live,
        }
    }
}

/// The recorded prices of a backtest, and how many steps were taken.
#[derive(Debug, Clone, PartialEq, Eq)]
pub struct BacktestingRunnerContext {
    pub prices: Vec<U256>,
    pub current_index: usize,
}

impl BacktestingRunnerContext {
    /// A backtest over `prices` that has taken no step yet.
    pub fn new(prices: Vec<U256>) -> (r: Self)
        ensures
            r.prices == prices,
            r.current_index == 0,
    {
        BacktestingRunnerContext { prices, current_index: 0 }
    }

    /// Takes one more step if fewer steps were taken than there are prices,
    /// and says whether it did.
    pub fn next(&mut self) -> (stepped: bool)
        ensures
            stepped == (old(self).current_index < old(self).prices@.len()),
            final(self).prices == old(self).prices,
            final(self).current_index == if stepped {
                old(self).current_index + 1
            } else {
                old(self).current_index as int
            },
    {
        if self.current_index < self.prices.len() {
            self.current_index += 1;
            true
        } else {
            false
        }
    }

    /// The recorded prices.
    pub fn prices(&self) -> (r: &[U256])
        ensures
            r@ == self.prices@,
    {
        self.prices.as_slice()
    }
}

} // verus!

//! A price as the price feed hands it over.

use crate::uint::U256;
use vstd::prelude::*;

verus! {

/// An observed price and the time of the observation.
#[derive(Copy, Clone, Debug, PartialEq, Eq)]
pub struct PriceData {
    pub price: U256,
    pub timestamp: u64,
}

} // verus!

//! What the market reports of itself.

use crate::uint::U256;
use vstd::prelude::*;

verus! {

/// The market took in a new price.
#[derive(Copy, Clone, Debug, PartialEq, Eq)]
pub struct OnPriceChange {
    pub price: U256,
    pub timestamp: u64,
}

} // verus!

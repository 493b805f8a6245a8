//! The addresses that the contracts of the system know each other by.

use vstd::prelude::*;

verus! {

/// The address of an account or of a contract, in its text form.
#[derive(Debug, Clone, PartialEq, Eq)]
pub struct Address {
    pub text: String,
}

impl View for Address {
    type V = Seq<char>;

    open spec fn view(&self) -> Seq<char> {
        self.text@
    }
}

impl Address {
    /// The address with the text form `text`.
    pub fn new(text: String) -> (r: Self)
        ensures
            r@ == text@,
    {
        Address { text }
    }

    /// Whether the two are the same address.
    pub fn same_as(&self, other: &Address) -> (r: bool)
        ensures
            r == (self@ == other@),
    {
        self.text == other.text
    }
}

/// Where the three tokens, the fee collector and the market are.
#[derive(Debug, Clone, PartialEq, Eq)]
pub struct Config {
    pub long_token: Address,
    pub short_token: Address,
    pub wcspr_token: Address,
    pub fee_collector: Address,
    pub market: Address,
}

impl Config {
    pub fn new(
        long_token: Address,
        short_token: Address,
        wcspr_token: Address,
        fee_collector: Address,
        market: Address,
    ) -> (r: Self)
        ensures
            r.long_token == long_token,
            r.short_token == short_token,
            r.wcspr_token == wcspr_token,
            r.fee_collector == fee_collector,
            r.market == market,
    {
        Self { long_token, short_token, wcspr_token, fee_collector, market }
    }

    /// Whether `addr` is the long token.
    pub fn is_long_token(&self, addr: &Address) -> (r: bool)
        ensures
            r == (self.long_token@ == addr@),
    {
        self.long_token.same_as(addr)
    }

    /// Whether `addr` is the short token.
    pub fn is_short_token(&self, addr: &Address) -> (r: bool)
        ensures
            r == (self.short_token@ == addr@),
    {
        self.short_token.same_as(addr)
    }

    /// Whether `addr` is the wrapped CSPR token.
    pub fn is_wcspr_token(&self, addr: &Address) -> (r: bool)
        ensures
            r == (self.wcspr_token@ == addr@),
    {
        self.wcspr_token.same_as(addr)
    }

    /// Whether `addr` is the fee collector.
    pub fn is_fee_collector(&self, addr: &Address) -> (r: bool)
        ensures
            r == (self.fee_collector@ == addr@),
    {
        self.fee_collector.same_as(addr)
    }

    /// Whether `addr` is the market.
    pub fn is_market(&self, addr: &Address) -> (r: bool)
        ensures
            r == (self.market@ == addr@),
    {
        self.market.same_as(addr)
    }
}

} // verus!

//! The market as its host sees it: the pool state, the fee, and for every
//! request the amounts that the token ledger has to move.
//!
//! Nothing here moves a token. A request either fails and leaves the market
//! as it was, or replaces the pool state and says what is to be collected,
//! paid, minted and burned for it.

use crate::config::{Address, Config};
use crate::events::OnPriceChange;
use crate::price_data::PriceData;
use crate::system::{MarketError, MarketModel, MarketState, Side};
use crate::uint::U256;
use vstd::prelude::*;

verus! {

/// The fee is one part in this many.
pub const FEE_DIVISOR: u64 = 200;

/// The fee on `amount`: half a percent, rounded down.
pub open spec fn fee_of(amount: nat) -> nat {
    amount / (FEE_DIVISOR as nat)
}

/// What is left of `amount` after the fee.
pub open spec fn net_of(amount: nat) -> nat {
    (amount - fee_of(amount)) as nat
}

/// Splits `amount` into what is left after the fee, and the fee.
pub fn split_fee(amount: U256) -> (r: (U256, U256))
    ensures
        r.1@ == fee_of(amount@),
        r.0@ == net_of(amount@),
        r.0@ + r.1@ == amount@,
{
    let fee = amount.checked_div(U256::from_u64(FEE_DIVISOR)).unwrap();
    let net = amount.checked_sub(fee).unwrap();
    (net, fee)
}

/// What the ledger has to do for a deposit that the market accepted.
#[derive(Copy, Clone, Debug, PartialEq, Eq)]
pub struct Deposit {
    /// The side that was deposited on.
    pub side: Side,
    /// What is collected from the depositor.
    pub collected: U256,
    /// The part of it that goes to the fee collector.
    pub fee: U256,
    /// The part of it that the pool keeps.
    pub net: U256,
    /// The shares of `side` minted to the depositor.
    pub minted: U256,
}

/// What the ledger has to do for a withdrawal that the market accepted.
#[derive(Copy, Clone, Debug, PartialEq, Eq)]
pub struct Withdrawal {
    /// The side that was withdrawn from.
    pub side: Side,
    /// The shares of `side` burned from the receiver.
    pub burned: U256,
    /// What leaves the pool.
    pub released: U256,
    /// The part of it that goes to the fee collector.
    pub fee: U256,
    /// The part of it that is paid to the receiver.
    pub paid: U256,
}

/// A market: without a state until `init` gives it one, and without the
/// addresses of the system until `set_config` gives them.
#[derive(Clone, Debug, PartialEq, Eq)]
pub struct Market {
    pub cfg: Option<Config>,
    pub state: Option<MarketState>,
}

impl View for Market {
    type V = Option<MarketModel>;

    open spec fn view(&self) -> Option<MarketModel> {
        match self.state {
            Some(state) => Some(state@),
            None => None,
        }
    }
}

/// The market after a deposit of `amount` before the fee, and the shares
/// minted: the pool takes in what the fee leaves.
pub open spec fn deposit_outcome(market: Option<MarketModel>, side: Side, amount: nat) -> Result<
    (MarketModel, nat),
    MarketError,
> {
    match market {
        None => Err(MarketError::Uninitialized),
        Some(state) => state.deposit(side, net_of(amount)),
    }
}

/// The market after a withdrawal of `shares`, and what leaves the pool for
/// them, fee included.
pub open spec fn withdrawal_outcome(market: Option<MarketModel>, side: Side, shares: nat) -> Result<
    (MarketModel, nat),
    MarketError,
> {
    match market {
        None => Err(MarketError::Uninitialized),
        Some(state) => state.withdraw(side, shares),
    }
}

/// The market after the price `new_price` was set.
pub open spec fn set_price_outcome(market: Option<MarketModel>, new_price: nat) -> Result<
    MarketModel,
    MarketError,
> {
    match market {
        None => Err(MarketError::Uninitialized),
        Some(state) => state.price_change(new_price),
    }
}

impl Market {
    /// A market without a state and without addresses.
    pub fn new() -> (market: Self)
        ensures
            market.state is None,
            market.cfg is None,
    {
        Market { cfg: None, state: None }
    }

    /// Gives the market its first state: the price of `last_price`, and
    /// neither liquidity nor shares. A zero price is refused, since no later
    /// price could be measured against it.
    pub fn init(&mut self, last_price: PriceData) -> (r: Result<(), MarketError>)
        ensures
            if last_price.price@ == 0 {
                r matches Err(MarketError::InvalidPrice) && *final(self) == *old(self)
            } else {
                &&& r is Ok
                &&& final(self)@ == Some(MarketModel::initial(last_price.price@))
                &&& final(self).cfg == old(self).cfg
            },
    {
        if last_price.price.is_zero() {
            return Err(MarketError::InvalidPrice);
        }
        self.state = Some(MarketState::new(last_price.price));
        Ok(())
    }

    /// Tells the market the addresses of the system.
    pub fn set_config(&mut self, cfg: Config)
        ensures
            final(self).cfg == Some(cfg),
            final(self).state == old(self).state,
    {
        self.cfg = Some(cfg);
    }

    /// A deposit on the long side that `caller` announces. It is refused
    /// where the market does not know the addresses yet, and where `caller`
    /// is the long token.
    pub fn deposit_long_from(&mut self, caller: &Address, amount: U256) -> (r: Result<
        Deposit,
        MarketError,
    >)
        ensures
            match old(self).cfg {
                None => r matches Err(MarketError::ConfigNotSet) && *final(self) == *old(self),
                Some(cfg) => if cfg.long_token@ == caller@ {
                    r matches Err(MarketError::LongTokenContractNotACallerOnDeposit)
                        && *final(self) == *old(self)
                } else {
                    deposit_done(*old(self), *final(self), Side::Long, amount, r)
                },
            },
    {
        match &self.cfg {
            None => {
                return Err(MarketError::ConfigNotSet);
            },
            Some(cfg) => {
                if cfg.is_long_token(caller) {
                    return Err(MarketError::LongTokenContractNotACallerOnDeposit);
                }
            },
        }
        self.deposit_unchecked(Side::Long, amount)
    }

    /// A deposit on the short side that `caller` announces. It is refused
    /// where the market does not know the addresses yet, and where `caller`
    /// is the short token.
    pub fn deposit_short_from(&mut self, caller: &Address, amount: U256) -> (r: Result<
        Deposit,
        MarketError,
    >)
        ensures
            match old(self).cfg {
                None => r matches Err(MarketError::ConfigNotSet) && *final(self) == *old(self),
                Some(cfg) => if cfg.short_token@ == caller@ {
                    r matches Err(MarketError::ShortTokenContractNotACallerOnDeposit)
                        && *final(self) == *old(self)
                } else {
                    deposit_done(*old(self), *final(self), Side::Short, amount, r)
                },
            },
    {
        match &self.cfg {
            None => {
                return Err(MarketError::ConfigNotSet);
            },
            Some(cfg) => {
                if cfg.is_short_token(caller) {
                    return Err(MarketError::ShortTokenContractNotACallerOnDeposit);
                }
            },
        }
        self.deposit_unchecked(Side::Short, amount)
    }

    /// A withdrawal from the long side that `caller` announces. It is
    /// refused where the market does not know the addresses yet, and where
    /// `caller` is the wrapped CSPR token.
    pub fn withdraw_long_from(&mut self, caller: &Address, amount: U256) -> (r: Result<
        Withdrawal,
        MarketError,
    >)
        ensures
            match old(self).cfg {
                None => r matches Err(MarketError::ConfigNotSet) && *final(self) == *old(self),
                Some(cfg) => if cfg.wcspr_token@ == caller@ {
                    r matches Err(MarketError::LongTokenContractNotACallerOnWithdrawal)
                        && *final(self) == *old(self)
                } else {
                    withdrawal_done(*old(self), *final(self), Side::Long, amount, r)
                },
            },
    {
        match &self.cfg {
            None => {
                return Err(MarketError::ConfigNotSet);
            },
            Some(cfg) => {
                if cfg.is_wcspr_token(caller) {
                    return Err(MarketError::LongTokenContractNotACallerOnWithdrawal);
                }
            },
        }
        self.withdrawal_unchecked(Side::Long, amount)
    }

    /// A withdrawal from the short side that `caller` announces. It is
    /// refused where the market does not know the addresses yet, and where
    /// `caller` is the wrapped CSPR token.
    pub fn withdraw_short_from(&mut self, caller: &Address, amount: U256) -> (r: Result<
        Withdrawal,
        MarketError,
    >)
        ensures
            match old(self).cfg {
                None => r matches Err(MarketError::ConfigNotSet) && *final(self) == *old(self),
                Some(cfg) => if cfg.wcspr_token@ == caller@ {
                    r matches Err(MarketError::ShortTokenContractNotACallerOnWithdrawal)
                        && *final(self) == *old(self)
                } else {
                    withdrawal_done(*old(self), *final(self), Side::Short, amount, r)
                },
            },
    {
        match &self.cfg {
            None => {
                return Err(MarketError::ConfigNotSet);
            },
            Some(cfg) => {
                if cfg.is_wcspr_token(caller) {
                    return Err(MarketError::ShortTokenContractNotACallerOnWithdrawal);
                }
            },
        }
        self.withdrawal_unchecked(Side::Short, amount)
    }

    /// A deposit of `amount` on the long side.
    pub fn deposit_long(&mut self, amount: U256) -> (r: Result<Deposit, MarketError>)
        ensures
            deposit_done(*old(self), *final(self), Side::Long, amount, r),
    {
        self.deposit_unchecked(Side::Long, amount)
    }

    /// A deposit of `amount` on the short side.
    pub fn deposit_short(&mut self, amount: U256) -> (r: Result<Deposit, MarketError>)
        ensures
            deposit_done(*old(self), *final(self), Side::Short, amount, r),
    {
        self.deposit_unchecked(Side::Short, amount)
    }

    /// A withdrawal of `amount` shares of the long side.
    pub fn withdraw_long(&mut self, amount: U256) -> (r: Result<Withdrawal, MarketError>)
        ensures
            withdrawal_done(*old(self), *final(self), Side::Long, amount, r),
    {
        self.withdrawal_unchecked(Side::Long, amount)
    }

    /// A withdrawal of `amount` shares of the short side.
    pub fn withdraw_short(&mut self, amount: U256) -> (r: Result<Withdrawal, MarketError>)
        ensures
            withdrawal_done(*old(self), *final(self), Side::Short, amount, r),
    {
        self.withdrawal_unchecked(Side::Short, amount)
    }

    /// Takes in a new price and rebalances the pools. Returns the event that
    /// reports it.
    pub fn set_price(&mut self, price_data: PriceData) -> (r: Result<OnPriceChange, MarketError>)
        ensures
            match set_price_outcome(old(self)@, price_data.price@) {
                Ok(changed) => {
                    &&& r matches Ok(event) && event.price == price_data.price && event.timestamp
                        == price_data.timestamp
                    &&& final(self)@ == Some(changed)
                    &&& final(self).cfg == old(self).cfg
                },
                Err(error) => r matches Err(e) && e == error && *final(self) == *old(self),
            },
    {
        let mut state = match self.state {
            Some(state) => state,
            None => {
                return Err(MarketError::Uninitialized);
            },
        };
        match state.on_price_change(price_data.price) {
            Ok(()) => {
                self.state = Some(state);
                Ok(OnPriceChange { price: price_data.price, timestamp: price_data.timestamp })
            },
            Err(e) => Err(e),
        }
    }

    /// The pool state.
    pub fn get_market_state(&self) -> (r: Result<MarketState, MarketError>)
        ensures
            match r {
                Ok(state) => self.state == Some(state),
                Err(e) => self.state is None && e == MarketError::Uninitialized,
            },
    {
        match self.state {
            Some(state) => Ok(state),
            None => Err(MarketError::Uninitialized),
        }
    }

    /// A deposit of `amount` on `side`: the fee is taken from `amount`, the
    /// pool takes in the rest and mints shares for it.
    pub fn deposit_unchecked(&mut self, side: Side, amount: U256) -> (r: Result<
        Deposit,
        MarketError,
    >)
        ensures
            deposit_done(*old(self), *final(self), side, amount, r),
    {
        let mut state = match self.state {
            Some(state) => state,
            None => {
                return Err(MarketError::Uninitialized);
            },
        };
        let (net, fee) = split_fee(amount);
        match state.on_deposit(side, net) {
            Ok(minted) => {
                self.state = Some(state);
                Ok(Deposit { side, collected: amount, fee, net, minted })
            },
            Err(e) => Err(e),
        }
    }

    /// A withdrawal of `amount` shares of `side`: the pool releases what the
    /// shares stand for, and the fee is taken from what it releases.
    pub fn withdrawal_unchecked(&mut self, side: Side, amount: U256) -> (r: Result<
        Withdrawal,
        MarketError,
    >)
        ensures
            withdrawal_done(*old(self), *final(self), side, amount, r),
    {
        let mut state = match self.state {
            Some(state) => state,
            None => {
                return Err(MarketError::Uninitialized);
            },
        };
        match state.on_withdraw(side, amount) {
            Ok(released) => {
                let (paid, fee) = split_fee(released);
                self.state = Some(state);
                Ok(Withdrawal { side, burned: amount, released, fee, paid })
            },
            Err(e) => Err(e),
        }
    }
}

/// What a deposit request leaves behind: on success the market of
/// [`deposit_outcome`] and the amounts for the ledger, on failure the error
/// of [`deposit_outcome`] and the market as it was.
pub open spec fn deposit_done(
    before: Market,
    after: Market,
    side: Side,
    amount: U256,
    r: Result<Deposit, MarketError>,
) -> bool {
    match deposit_outcome(before@, side, amount@) {
        Ok((deposited, minted)) => {
            &&& after@ == Some(deposited)
            &&& after.cfg == before.cfg
            &&& r matches Ok(deposit) && {
                &&& deposit.side == side
                &&& deposit.collected == amount
                &&& deposit.fee@ == fee_of(amount@)
                &&& deposit.net@ == net_of(amount@)
                &&& deposit.minted@ == minted
                &&& deposit.minted@ > 0
            }
        },
        Err(error) => r matches Err(e) && e == error && after == before,
    }
}

/// What a withdrawal request leaves behind: on success the market of
/// [`withdrawal_outcome`] and the amounts for the ledger, on failure the
/// error of [`withdrawal_outcome`] and the market as it was.
pub open spec fn withdrawal_done(
    before: Market,
    after: Market,
    side: Side,
    shares: U256,
    r: Result<Withdrawal, MarketError>,
) -> bool {
    match withdrawal_outcome(before@, side, shares@) {
        Ok((withdrawn, released)) => {
            &&& after@ == Some(withdrawn)
            &&& after.cfg == before.cfg
            &&& r matches Ok(withdrawal) && {
                &&& withdrawal.side == side
                &&& withdrawal.burned == shares
                &&& withdrawal.released@ == released
                &&& withdrawal.fee@ == fee_of(released)
                &&& withdrawal.paid@ == net_of(released)
                &&& withdrawal.fee@ + withdrawal.paid@ == released
            }
        },
        Err(error) => r matches Err(e) && e == error && after == before,
    }
}

} // verus!

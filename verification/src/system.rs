//! The pool state and its three transitions: a price change, a deposit and a
//! withdrawal.
//!
//! The state is five 256-bit numbers. Its mathematical model, [`MarketModel`],
//! holds the same five as natural numbers, and each transition is first
//! defined on the model and then implemented on the state. A transition
//! either succeeds and replaces the state, or fails and leaves it as it was.

use crate::uint::{limit256, lemma_u256_bound, U256};
use vstd::arithmetic::div_mod::{lemma_div_is_ordered, lemma_div_multiples_vanish};
use vstd::arithmetic::mul::{lemma_mul_inequality, lemma_mul_is_commutative};
use vstd::prelude::*;

verus! {

/// One dollar in the unit of the price.
pub const ONE_DOLLAR: u64 = 10_000;

/// One cent in the unit of the price.
pub const ONE_CENT: u64 = 100;

/// A tenth of a cent in the unit of the price.
pub const ONE_TENTH_CENT: u64 = 10;

/// One of the two sides of the market.
#[derive(Copy, Clone, Debug, PartialEq, Eq, Structural)]
pub enum Side {
    Long,
    Short,
}

/// Why a transition was refused.
#[derive(Copy, Clone, Debug, PartialEq, Eq, Structural)]
pub enum MarketError {
    /// The new price or the current price is zero.
    InvalidPrice,
    /// A deposit or a withdrawal of nothing.
    ZeroAmount,
    /// A withdrawal of more shares than the side has outstanding.
    InsufficientShares,
    /// A deposit too small to mint one share.
    NegligibleMint,
    /// A result does not fit in 256 bits, or shares are outstanding on a side
    /// without liquidity, so that no number of new shares is large enough.
    ArithmeticOverflow,
    /// A difference would be negative.
    ArithmeticUnderflow,
    /// The market has no state yet.
    Uninitialized,
    /// The market was not told the addresses of the system yet.
    ConfigNotSet,
    /// A deposit on the long side was announced by the long token itself.
    LongTokenContractNotACallerOnDeposit,
    /// A deposit on the short side was announced by the short token itself.
    ShortTokenContractNotACallerOnDeposit,
    /// A withdrawal from the long side was announced by the wrapped CSPR
    /// token.
    LongTokenContractNotACallerOnWithdrawal,
    /// A withdrawal from the short side was announced by the wrapped CSPR
    /// token.
    ShortTokenContractNotACallerOnWithdrawal,
}

/// The state of the market.
#[derive(Copy, Clone, Debug, PartialEq, Eq)]
pub struct MarketState {
    pub long_total_supply: U256,
    pub short_total_supply: U256,
    pub long_liquidity: U256,
    pub short_liquidity: U256,
    pub price: U256,
}

/// The state of the market as natural numbers.
pub struct MarketModel {
    pub long_total_supply: nat,
    pub short_total_supply: nat,
    pub long_liquidity: nat,
    pub short_liquidity: nat,
    pub price: nat,
}

impl View for MarketState {
    type V = MarketModel;

    open spec fn view(&self) -> MarketModel {
        MarketModel {
            long_total_supply: self.long_total_supply@,
            short_total_supply: self.short_total_supply@,
            long_liquidity: self.long_liquidity@,
            short_liquidity: self.short_liquidity@,
            price: self.price@,
        }
    }
}

/// What a pool of `pool` pays when the price ratio is
/// `numerator / denominator`: `pool * numerator / denominator - pool`, rounded
/// down, but never more than the pool holds.
pub open spec fn payout(pool: nat, numerator: nat, denominator: nat) -> nat
    recommends
        denominator > 0,
        (pool * numerator) / denominator >= pool,
{
    let grown = (pool * numerator) / denominator;
    if grown - pool <= pool {
        (grown - pool) as nat
    } else {
        pool
    }
}

impl MarketModel {
    /// A market without liquidity or shares.
    pub open spec fn initial(price: nat) -> MarketModel {
        MarketModel {
            long_total_supply: 0,
            short_total_supply: 0,
            long_liquidity: 0,
            short_liquidity: 0,
            price,
        }
    }

    /// The liquidity of one side.
    pub open spec fn liquidity(self, side: Side) -> nat {
        match side {
            Side::Long => self.long_liquidity,
            Side::Short => self.short_liquidity,
        }
    }

    /// The outstanding shares of one side.
    pub open spec fn supply(self, side: Side) -> nat {
        match side {
            Side::Long => self.long_total_supply,
            Side::Short => self.short_total_supply,
        }
    }

    /// The liquidity of both sides together.
    pub open spec fn total_liquidity(self) -> nat {
        self.long_liquidity + self.short_liquidity
    }

    /// The same market with other numbers on one side.
    pub open spec fn with_side(self, side: Side, liquidity: nat, supply: nat) -> MarketModel {
        match side {
            Side::Long => MarketModel {
                long_liquidity: liquidity,
                long_total_supply: supply,
                ..self
            },
            Side::Short => MarketModel {
                short_liquidity: liquidity,
                short_total_supply: supply,
                ..self
            },
        }
    }

    /// The short side pays the long side for a price that went from
    /// `self.price` to `new_price`.
    pub open spec fn price_goes_up(self, new_price: nat) -> Result<MarketModel, MarketError> {
        if new_price == 0 || self.price == 0 {
            Err(MarketError::InvalidPrice)
        } else if (self.short_liquidity * new_price) / self.price < self.short_liquidity {
            Err(MarketError::ArithmeticUnderflow)
        } else {
            let delta = payout(self.short_liquidity, new_price, self.price);
            if self.long_liquidity + delta >= limit256() {
                Err(MarketError::ArithmeticOverflow)
            } else {
                Ok(
                    MarketModel {
                        long_liquidity: self.long_liquidity + delta,
                        short_liquidity: (self.short_liquidity - delta) as nat,
                        price: new_price,
                        ..self
                    },
                )
            }
        }
    }

    /// The long side pays the short side for a price that went from
    /// `self.price` to `new_price`.
    pub open spec fn price_goes_down(self, new_price: nat) -> Result<MarketModel, MarketError> {
        if new_price == 0 || self.price == 0 {
            Err(MarketError::InvalidPrice)
        } else if (self.long_liquidity * self.price) / new_price < self.long_liquidity {
            Err(MarketError::ArithmeticUnderflow)
        } else {
            let delta = payout(self.long_liquidity, self.price, new_price);
            if self.short_liquidity + delta >= limit256() {
                Err(MarketError::ArithmeticOverflow)
            } else {
                Ok(
                    MarketModel {
                        long_liquidity: (self.long_liquidity - delta) as nat,
                        short_liquidity: self.short_liquidity + delta,
                        price: new_price,
                        ..self
                    },
                )
            }
        }
    }

    /// The market after the price `new_price` was observed.
    pub open spec fn price_change(self, new_price: nat) -> Result<MarketModel, MarketError> {
        if new_price == 0 || self.price == 0 {
            Err(MarketError::InvalidPrice)
        } else if new_price > self.price {
            self.price_goes_up(new_price)
        } else if new_price < self.price {
            self.price_goes_down(new_price)
        } else {
            Ok(self)
        }
    }

    /// The market after `amount` was deposited on `side`, and the shares
    /// minted for it.
    pub open spec fn deposit(self, side: Side, amount: nat) -> Result<
        (MarketModel, nat),
        MarketError,
    > {
        let liquidity = self.liquidity(side);
        let supply = self.supply(side);
        if amount == 0 {
            Err(MarketError::ZeroAmount)
        } else if liquidity + amount >= limit256() {
            Err(MarketError::ArithmeticOverflow)
        } else if supply == 0 {
            Ok((self.with_side(side, liquidity + amount, amount), amount))
        } else if liquidity == 0 {
            Err(MarketError::ArithmeticOverflow)
        } else {
            let new_supply = (supply * (liquidity + amount)) / liquidity;
            if new_supply >= limit256() {
                Err(MarketError::ArithmeticOverflow)
            } else if new_supply <= supply {
                Err(MarketError::NegligibleMint)
            } else {
                Ok(
                    (
                        self.with_side(side, liquidity + amount, new_supply),
                        (new_supply - supply) as nat,
                    ),
                )
            }
        }
    }

    /// The market after `shares` were withdrawn from `side`, and the
    /// liquidity released for them.
    pub open spec fn withdraw(self, side: Side, shares: nat) -> Result<
        (MarketModel, nat),
        MarketError,
    > {
        let liquidity = self.liquidity(side);
        let supply = self.supply(side);
        if shares == 0 {
            Err(MarketError::ZeroAmount)
        } else if shares > supply {
            Err(MarketError::InsufficientShares)
        } else {
            let new_supply = (supply - shares) as nat;
            let new_liquidity = (liquidity * new_supply) / supply;
            Ok(
                (
                    self.with_side(side, new_liquidity, new_supply),
                    (liquidity - new_liquidity) as nat,
                ),
            )
        }
    }
}

/// A quotient `pool * numerator / denominator` with `numerator` at least
/// `denominator` is at least `pool`.
pub proof fn lemma_grown_at_least(pool: nat, numerator: nat, denominator: nat)
    requires
        0 < denominator <= numerator,
    ensures
        (pool * numerator) / denominator >= pool,
{
    lemma_mul_inequality(denominator as int, numerator as int, pool as int);
    lemma_mul_is_commutative(pool as int, numerator as int);
    lemma_mul_is_commutative(pool as int, denominator as int);
    lemma_div_is_ordered(
        (pool * denominator) as int,
        (pool * numerator) as int,
        denominator as int,
    );
    lemma_div_multiples_vanish(pool as int, denominator as int);
    lemma_mul_is_commutative(pool as int, denominator as int);
}

/// A quotient `pool * numerator / denominator` with `numerator` at most
/// `denominator` is at most `pool`.
pub proof fn lemma_shrunk_at_most(pool: nat, numerator: nat, denominator: nat)
    requires
        numerator <= denominator,
        0 < denominator,
    ensures
        (pool * numerator) / denominator <= pool,
{
    lemma_mul_inequality(numerator as int, denominator as int, pool as int);
    lemma_mul_is_commutative(pool as int, numerator as int);
    lemma_mul_is_commutative(pool as int, denominator as int);
    lemma_div_is_ordered(
        (pool * numerator) as int,
        (pool * denominator) as int,
        denominator as int,
    );
    lemma_div_multiples_vanish(pool as int, denominator as int);
}

/// What a pool pays for a price ratio: see [`payout`].
///
/// Fails with `ArithmeticUnderflow` exactly where the ratio would shrink the
/// pool instead.
fn pay_out(pool: U256, numerator: U256, denominator: U256) -> (r: Result<U256, MarketError>)
    requires
        denominator@ != 0,
    ensures
        match r {
            Ok(delta) => {
                &&& (pool@ * numerator@) / denominator@ >= pool@
                &&& delta@ == payout(pool@, numerator@, denominator@)
                &&& delta@ <= pool@
            },
            Err(e) => {
                &&& e == MarketError::ArithmeticUnderflow
                &&& (pool@ * numerator@) / denominator@ < pool@
            },
        },
{
    let grown = pool.mul_div(numerator, denominator).unwrap();
    match grown.checked_sub(pool.widen()) {
        None => Err(MarketError::ArithmeticUnderflow),
        Some(excess) => match excess.narrow() {
            None => {
                proof {
                    lemma_u256_bound(pool);
                }
                Ok(pool)
            },
            Some(delta) => Ok(delta.min(pool)),
        },
    }
}

impl MarketState {
    /// A market at `price` without liquidity or shares.
    pub fn new(price: U256) -> (state: Self)
        ensures
            state@ == MarketModel::initial(price@),
    {
        MarketState {
            long_total_supply: U256::zero(),
            short_total_supply: U256::zero(),
            long_liquidity: U256::zero(),
            short_liquidity: U256::zero(),
            price,
        }
    }

    /// Takes in a newly observed price and moves liquidity from the side that
    /// lost to the side that won: see [`MarketModel::price_change`].
    ///
    /// A price equal to the current one changes nothing. A zero price, new or
    /// current, is refused, and so is a move that the winning side cannot
    /// hold in 256 bits. The liquidity of both sides together and the share
    /// supplies stay as they are in every case.
    pub fn on_price_change(&mut self, new_price: U256) -> (r: Result<(), MarketError>)
        ensures
            match old(self)@.price_change(new_price@) {
                Ok(changed) => r is Ok && final(self)@ == changed,
                Err(error) => r matches Err(e) && e == error && *final(self) == *old(self),
            },
            r matches Err(MarketError::InvalidPrice) <==> new_price@ == 0 || old(self)@.price == 0,
            r matches Err(e) ==> e == MarketError::InvalidPrice || e
                == MarketError::ArithmeticOverflow,
            r is Ok ==> final(self)@.price == new_price@,
            new_price@ == old(self)@.price ==> *final(self) == *old(self),
            final(self)@.total_liquidity() == old(self)@.total_liquidity(),
            final(self).long_total_supply == old(self).long_total_supply,
            final(self).short_total_supply == old(self).short_total_supply,
    {
        if new_price.is_zero() || self.price.is_zero() {
            Err(MarketError::InvalidPrice)
        } else if self.price.lt(new_price) {
            proof {
                lemma_grown_at_least(self@.short_liquidity, new_price@, self@.price);
            }
            self.on_price_goes_up(new_price)
        } else if new_price.lt(self.price) {
            proof {
                lemma_grown_at_least(self@.long_liquidity, self@.price, new_price@);
            }
            self.on_price_goes_down(new_price)
        } else {
            Ok(())
        }
    }

    /// Moves from the short side to the long side what a price that rose from
    /// the current one to `new_price` costs the short side, at most all of it,
    /// and sets the price: see [`MarketModel::price_goes_up`].
    ///
    /// Fails with `ArithmeticUnderflow` where `new_price` is so far below the
    /// current price that the short side would gain.
    pub fn on_price_goes_up(&mut self, new_price: U256) -> (r: Result<(), MarketError>)
        ensures
            match old(self)@.price_goes_up(new_price@) {
                Ok(changed) => r is Ok && final(self)@ == changed,
                Err(error) => r matches Err(e) && e == error && *final(self) == *old(self),
            },
            final(self)@.total_liquidity() == old(self)@.total_liquidity(),
            final(self)@.long_liquidity >= old(self)@.long_liquidity,
            final(self).long_total_supply == old(self).long_total_supply,
            final(self).short_total_supply == old(self).short_total_supply,
    {
        if new_price.is_zero() || self.price.is_zero() {
            return Err(MarketError::InvalidPrice);
        }
        let delta = match pay_out(self.short_liquidity, new_price, self.price) {
            Ok(delta) => delta,
            Err(e) => {
                return Err(e);
            },
        };
        match self.long_liquidity.checked_add(delta) {
            None => Err(MarketError::ArithmeticOverflow),
            Some(long_liquidity) => {
                self.short_liquidity = self.short_liquidity.checked_sub(delta).unwrap();
                self.long_liquidity = long_liquidity;
                self.price = new_price;
                Ok(())
            },
        }
    }

    /// Moves from the long side to the short side what a price that fell from
    /// the current one to `new_price` costs the long side, at most all of it,
    /// and sets the price: see [`MarketModel::price_goes_down`].
    ///
    /// Fails with `ArithmeticUnderflow` where `new_price` is so far above the
    /// current price that the long side would gain.
    pub fn on_price_goes_down(&mut self, new_price: U256) -> (r: Result<(), MarketError>)
        ensures
            match old(self)@.price_goes_down(new_price@) {
                Ok(changed) => r is Ok && final(self)@ == changed,
                Err(error) => r matches Err(e) && e == error && *final(self) == *old(self),
            },
            final(self)@.total_liquidity() == old(self)@.total_liquidity(),
            final(self)@.short_liquidity >= old(self)@.short_liquidity,
            final(self).long_total_supply == old(self).long_total_supply,
            final(self).short_total_supply == old(self).short_total_supply,
    {
        if new_price.is_zero() || self.price.is_zero() {
            return Err(MarketError::InvalidPrice);
        }
        let delta = match pay_out(self.long_liquidity, self.price, new_price) {
            Ok(delta) => delta,
            Err(e) => {
                return Err(e);
            },
        };
        match self.short_liquidity.checked_add(delta) {
            None => Err(MarketError::ArithmeticOverflow),
            Some(short_liquidity) => {
                self.long_liquidity = self.long_liquidity.checked_sub(delta).unwrap();
                self.short_liquidity = short_liquidity;
                self.price = new_price;
                Ok(())
            },
        }
    }

    /// Adds `amount` to the liquidity of `side` and mints shares for it: as
    /// many as `amount` on a side without shares, else as many as keep the
    /// liquidity behind each share from falling. Returns the shares minted:
    /// see [`MarketModel::deposit`].
    ///
    /// The other side and the price stay as they are.
    pub fn on_deposit(&mut self, side: Side, amount: U256) -> (r: Result<U256, MarketError>)
        ensures
            match old(self)@.deposit(side, amount@) {
                Ok((deposited, minted)) => r matches Ok(shares) && shares@ == minted && final(self)@
                    == deposited,
                Err(error) => r matches Err(e) && e == error && *final(self) == *old(self),
            },
            r matches Err(MarketError::ZeroAmount) <==> amount@ == 0,
            r matches Ok(shares) ==> {
                &&& shares@ > 0
                &&& final(self)@.liquidity(side) == old(self)@.liquidity(side) + amount@
                &&& final(self)@.supply(side) == old(self)@.supply(side) + shares@
                &&& old(self)@.supply(side) == 0 ==> shares@ == amount@
            },
    {
        let (liquidity, supply) = match side {
            Side::Long => (self.long_liquidity, self.long_total_supply),
            Side::Short => (self.short_liquidity, self.short_total_supply),
        };
        if amount.is_zero() {
            return Err(MarketError::ZeroAmount);
        }
        let new_liquidity = match liquidity.checked_add(amount) {
            Some(sum) => sum,
            None => {
                return Err(MarketError::ArithmeticOverflow);
            },
        };
        let new_supply = if supply.is_zero() {
            amount
        } else {
            let grown = match supply.mul_div(new_liquidity, liquidity) {
                Some(grown) => grown,
                None => {
                    return Err(MarketError::ArithmeticOverflow);
                },
            };
            match grown.narrow() {
                Some(new_supply) => new_supply,
                None => {
                    return Err(MarketError::ArithmeticOverflow);
                },
            }
        };
        proof {
            if supply@ != 0 {
                lemma_grown_at_least(supply@, new_liquidity@, liquidity@);
            }
        }
        let minted = new_supply.checked_sub(supply).unwrap();
        if minted.is_zero() {
            return Err(MarketError::NegligibleMint);
        }
        match side {
            Side::Long => {
                self.long_liquidity = new_liquidity;
                self.long_total_supply = new_supply;
            },
            Side::Short => {
                self.short_liquidity = new_liquidity;
                self.short_total_supply = new_supply;
            },
        }
        Ok(minted)
    }

    /// Burns `amount` shares of `side` and takes from its liquidity what they
    /// stand for: the side keeps `liquidity * remaining shares / shares`,
    /// rounded down. Returns the liquidity released: see
    /// [`MarketModel::withdraw`].
    ///
    /// The other side and the price stay as they are.
    pub fn on_withdraw(&mut self, side: Side, amount: U256) -> (r: Result<U256, MarketError>)
        ensures
            match old(self)@.withdraw(side, amount@) {
                Ok((withdrawn, released)) => r matches Ok(liquidity) && liquidity@ == released
                    && final(self)@ == withdrawn,
                Err(error) => r matches Err(e) && e == error && *final(self) == *old(self),
            },
            r is Ok <==> 0 < amount@ <= old(self)@.supply(side),
            r matches Err(MarketError::ZeroAmount) <==> amount@ == 0,
            r matches Err(MarketError::InsufficientShares) <==> amount@ > old(self)@.supply(side)
                && amount@ != 0,
            r matches Ok(liquidity) ==> {
                &&& liquidity@ <= old(self)@.liquidity(side)
                &&& final(self)@.liquidity(side) == old(self)@.liquidity(side) - liquidity@
                &&& final(self)@.supply(side) == old(self)@.supply(side) - amount@
                &&& amount@ == old(self)@.supply(side) ==> final(self)@.liquidity(side) == 0
            },
    {
        let (liquidity, supply) = match side {
            Side::Long => (self.long_liquidity, self.long_total_supply),
            Side::Short => (self.short_liquidity, self.short_total_supply),
        };
        if amount.is_zero() {
            return Err(MarketError::ZeroAmount);
        }
        let new_supply = match supply.checked_sub(amount) {
            Some(rest) => rest,
            None => {
                return Err(MarketError::InsufficientShares);
            },
        };
        proof {
            lemma_shrunk_at_most(liquidity@, new_supply@, supply@);
            lemma_u256_bound(liquidity);
            if new_supply@ == 0 {
                assert(liquidity@ * new_supply@ == 0) by (nonlinear_arith)
                    requires
                        new_supply@ == 0,
                ;
            }
        }
        let new_liquidity = liquidity.mul_div(new_supply, supply).unwrap().narrow().unwrap();
        let released = liquidity.checked_sub(new_liquidity).unwrap();
        match side {
            Side::Long => {
                self.long_liquidity = new_liquidity;
                self.long_total_supply = new_supply;
            },
            Side::Short => {
                self.short_liquidity = new_liquidity;
                self.short_total_supply = new_supply;
            },
        }
        Ok(released)
    }
}

} // verus!

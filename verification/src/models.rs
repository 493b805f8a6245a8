//! Values that the trading client passes around.

use crate::config::Address;
use crate::system::MarketState;
use crate::uint::U256;
use vstd::prelude::*;

verus! {

/// The three tokens of the system.
#[derive(Debug, Clone, Copy, PartialEq, Eq, Structural)]
pub enum Token {
    Long,
    Short,
    Wcspr,
}

/// Who receives a transfer: one of the three token contracts, or an account
/// or contract given by its address.
#[derive(Debug, Clone, PartialEq, Eq)]
pub enum Recipient {
    LongContract,
    ShortContract,
    WcsprContract,
    Address(Address),
}

/// A transfer to make.
#[derive(Debug, Clone, PartialEq, Eq)]
pub struct TransferOrder {
    pub token: Token,
    pub recipient: Recipient,
    pub amount: U256,
}

/// What a strategy decided to do.
#[derive(Debug, Clone, Copy, PartialEq, Eq)]
pub enum TradingAction {
    GoLong { amount: U256 },
    GoShort { amount: U256 },
    StopLong { amount: U256 },
    StopShort { amount: U256 },
}

impl TradingAction {
    /// The amount of the action.
    pub open spec fn amount(self) -> U256 {
        match self {
            TradingAction::GoLong { amount } => amount,
            TradingAction::GoShort { amount } => amount,
            TradingAction::StopLong { amount } => amount,
            TradingAction::StopShort { amount } => amount,
        }
    }

    /// The token that the action sends.
    pub open spec fn token(self) -> Token {
        match self {
            TradingAction::GoLong { .. } => Token::Wcspr,
            TradingAction::GoShort { .. } => Token::Wcspr,
            TradingAction::StopLong { .. } => Token::Long,
            TradingAction::StopShort { .. } => Token::Short,
        }
    }

    /// The contract that the action sends it to.
    pub open spec fn recipient(self) -> Recipient {
        match self {
            TradingAction::GoLong { .. } => Recipient::LongContract,
            TradingAction::GoShort { .. } => Recipient::ShortContract,
            TradingAction::StopLong { .. } => Recipient::WcsprContract,
            TradingAction::StopShort { .. } => Recipient::WcsprContract,
        }
    }

    /// The transfer that carries the action out: wrapped CSPR to the long or
    /// the short token's contract to open a position, long or short tokens
    /// to the wrapped CSPR contract to close one.
    pub fn to_transfer_order(&self) -> (order: TransferOrder)
        ensures
            order.token == self.token(),
            order.recipient == self.recipient(),
            order.amount == self.amount(),
    {
        match self {
            TradingAction::GoLong { amount } => TransferOrder {
                token: Token::Wcspr,
                recipient: Recipient::LongContract,
                amount: *amount,
            },
            TradingAction::GoShort { amount } => TransferOrder {
                token: Token::Wcspr,
                recipient: Recipient::ShortContract,
                amount: *amount,
            },
            TradingAction::StopLong { amount } => TransferOrder {
                token: Token::Long,
                recipient: Recipient::WcsprContract,
                amount: *amount,
            },
            TradingAction::StopShort { amount } => TransferOrder {
                token: Token::Short,
                recipient: Recipient::WcsprContract,
                amount: *amount,
            },
        }
    }
}

/// How a bot picks its trades.
#[derive(Debug, Clone, Copy, PartialEq, Eq, Structural)]
pub enum BotMode {
    Random,
}

/// What a bot knows of its account and of the market.
#[derive(Debug, Clone, PartialEq, Eq)]
pub struct SystemStats {
    pub account: Address,
    pub wcspr_balance: U256,
    pub short_balance: U256,
    pub long_balance: U256,
    pub market_state: MarketState,
}

} // verus!

//! What the short token decides before it moves or burns tokens.
//!
//! The token's ledger is not here: each function says which of the ledger's
//! operations is to be carried out.

use crate::config::{Address, Config};
use crate::uint::U256;
use vstd::prelude::*;

verus! {

/// Why the short token refused a request.
#[derive(Copy, Clone, Debug, PartialEq, Eq, Structural)]
pub enum TokenError {
    /// The token was not told the addresses of the system yet.
    ConfigNotSet,
    /// The owner has fewer tokens than are to be burned.
    InsufficientBalance,
}

/// How a transfer by the holder is carried out.
#[derive(Copy, Clone, Debug, PartialEq, Eq, Structural)]
pub enum Transfer {
    /// The market withdraws the amount from its short side for the sender.
    Withdrawal,
    /// The ledger moves the amount from the sender to the recipient.
    Raw,
}

/// How a transfer on behalf of the holder is carried out.
#[derive(Copy, Clone, Debug, PartialEq, Eq, Structural)]
pub enum TransferFrom {
    /// The ledger moves the amount without looking at allowances.
    Raw,
    /// The ledger moves the amount against the caller's allowance.
    Allowance,
}

/// How tokens are burned.
#[derive(Copy, Clone, Debug, PartialEq, Eq, Structural)]
pub enum Burn {
    /// The ledger burns the amount without looking at the caller.
    Raw,
    /// The ledger burns the amount if the caller may do so.
    Checked,
}

/// The short token.
#[derive(Clone, Debug, PartialEq, Eq)]
pub struct TokenShort {
    pub cfg: Option<Config>,
}

impl TokenShort {
    /// A token that does not know the addresses of the system yet.
    pub fn new() -> (r: Self)
        ensures
            r.cfg is None,
    {
        TokenShort { cfg: None }
    }

    /// Tells the token the addresses of the system.
    pub fn set_config(&mut self, cfg: Config)
        ensures
            final(self).cfg == Some(cfg),
    {
        self.cfg = Some(cfg);
    }

    /// A transfer to the wrapped CSPR token is a withdrawal from the market;
    /// any other is a move on the ledger.
    pub fn transfer(&self, recipient: &Address) -> (r: Result<Transfer, TokenError>)
        ensures
            r == match self.cfg {
                None => Err(TokenError::ConfigNotSet),
                Some(cfg) => Ok(
                    if cfg.wcspr_token@ == recipient@ {
                        Transfer::Withdrawal
                    } else {
                        Transfer::Raw
                    },
                ),
            },
    {
        match &self.cfg {
            None => Err(TokenError::ConfigNotSet),
            Some(cfg) => if cfg.is_wcspr_token(recipient) {
                Ok(Transfer::Withdrawal)
            } else {
                Ok(Transfer::Raw)
            },
        }
    }

    /// The market moves tokens without an allowance; any other caller needs
    /// one.
    pub fn transfer_from(&self, caller: &Address) -> (r: Result<TransferFrom, TokenError>)
        ensures
            r == match self.cfg {
                None => Err(TokenError::ConfigNotSet),
                Some(cfg) => Ok(
                    if cfg.market@ == caller@ {
                        TransferFrom::Raw
                    } else {
                        TransferFrom::Allowance
                    },
                ),
            },
    {
        match &self.cfg {
            None => Err(TokenError::ConfigNotSet),
            Some(cfg) => if cfg.is_market(caller) {
                Ok(TransferFrom::Raw)
            } else {
                Ok(TransferFrom::Allowance)
            },
        }
    }

    /// The market burns what the owner has, and no more; any other caller is
    /// left to the ledger's own checks.
    pub fn burn(&self, caller: &Address, balance: U256, amount: U256) -> (r: Result<
        Burn,
        TokenError,
    >)
        ensures
            r == match self.cfg {
                None => Err(TokenError::ConfigNotSet),
                Some(cfg) => if cfg.market@ == caller@ {
                    if balance@ < amount@ {
                        Err(TokenError::InsufficientBalance)
                    } else {
                        Ok(Burn::Raw)
                    }
                } else {
                    Ok(Burn::Checked)
                },
            },
    {
        match &self.cfg {
            None => Err(TokenError::ConfigNotSet),
            Some(cfg) => if cfg.is_market(caller) {
                if balance.lt(amount) {
                    Err(TokenError::InsufficientBalance)
                } else {
                    Ok(Burn::Raw)
                }
            } else {
                Ok(Burn::Checked)
            },
        }
    }
}

} // verus!

//! A two-sided synthetic-asset market: a long pool and a short pool over one
//! reference asset, rebalanced on every price change, with share accounting
//! for deposits and withdrawals and a fixed fee on every amount that crosses
//! the pool boundary.

pub mod config;
pub mod deployed_contracts;
pub mod events;
pub mod laws;
pub mod market;
pub mod models;
pub mod price_data;
pub mod runner;
pub mod simulation;
pub mod strategy;
pub mod system;
pub mod token_short;
pub mod uint;

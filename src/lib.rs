//! A ledger that replays deposits, withdrawals and the dispute lifecycle
//! against per-client balances held as exact four-digit decimals.

pub mod error;
pub mod amount;
pub mod account;
pub mod ledger;
pub mod processor;
pub mod laws;

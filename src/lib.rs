//! A ledger that replays deposits, withdrawals and the dispute family of
//! transactions against per-client balances.
pub mod amount;
pub mod error;
pub mod transaction;
pub mod balance;
pub mod accountant;

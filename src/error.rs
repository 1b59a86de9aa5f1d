use vstd::prelude::*;

use crate::amount::MonetaryAmount;

verus! {

/// Why an operation on the ledger failed.
#[derive(Debug, Clone, Copy, PartialEq, Eq, Structural)]
pub enum LedgerError {
    /// The operation would leave a balance field below zero.
    InsufficientFunds { amount: MonetaryAmount, balance: MonetaryAmount },
    /// The client's account is locked after a chargeback.
    AccountLocked(u16),
    /// A dispute-family transaction names no transaction of the same client.
    TxNotFound(u32),
    /// A deposit or withdrawal reuses a transaction id.
    TxDuplicated(u32),
    /// A sum leaves the range of a monetary amount.
    ValueOverflow,
    /// The amount text is not a decimal with at most four fractional digits.
    InvalidAmount,
}

} // verus!

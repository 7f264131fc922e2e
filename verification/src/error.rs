use vstd::prelude::*;

verus! {

/// The typed failures the ledger core can report for a single transaction.
///
/// Every failure is recoverable at per-transaction granularity: a failing
/// transaction is rejected (not applied, not logged) and processing of the
/// remaining stream continues.
#[derive(Debug, Clone, Copy, PartialEq, Eq, Structural)]
pub enum TxError {
    /// A withdrawal, dispute hold, or chargeback asked for more than is there.
    InsufficientFunds,
    /// A deposit or withdrawal record arrived without an amount.
    MissingAmount,
    /// The transaction is already under dispute, or is of a kind that cannot
    /// be disputed.
    BadDispute,
    /// A raw amount was negative or too large to represent.
    InvalidAmount,
    /// The client's account is locked; every operation on it is rejected.
    LockedAccount,
    /// The referenced transaction is in neither the log nor the dispute index.
    NotFound,
    /// The referenced transaction belongs to a different client.
    InsufficientPermission,
}

} // verus!

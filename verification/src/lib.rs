//! An in-memory ledger engine: it replays a sequential stream of financial
//! transaction records into per-client account balances, enforcing
//! fund-sufficiency, the dispute lifecycle, and account locking.

pub mod account;
pub mod error;
pub mod ledger;
pub mod transaction;

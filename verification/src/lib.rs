//! An in-memory ledger: accounts with signed balances, transfers between
//! them, and an append-only log of completed transfers.
//!
//! The account store is one exclusive region: every operation that touches
//! it takes the ledger by `&mut`, so all account reads and mutations
//! serialize relative to each other. A transfer validates, mutates both
//! balances as one indivisible step, and appends its record to the log
//! before giving up that exclusive access, so log order matches commit
//! order.

mod account_store;
mod errors;
mod laws;
mod ledger;
mod transaction_log;

pub use account_store::{Account, AccountStore};
pub use errors::LedgerError;
pub use ledger::PaymentSystem;
pub use transaction_log::{Transaction, TransactionLog};

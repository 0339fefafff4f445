//! A single-pass ledger. Deposits, withdrawals, disputes, resolves and
//! chargebacks are applied, in the order in which they arrive, to one account
//! for each client; at the end the accounts are handed out.
//!
//! The ledger keeps the accounts. The caller keeps the outcome log, a store
//! of bytes under transaction ids: for every transaction it hands
//! [`job_queue::AccountStates::submit`] what the log holds under the
//! transaction's id, and writes back what `submit` returns.
//!
//! Amounts are decimals of 96 bits and up to 28 fractional digits. Their
//! sums, differences, products and order are computed by `rust_decimal`, and
//! records are turned into bytes by `bincode`; what this library takes on
//! trust from the two is said in [`decimal`] and in [`codec`].

pub mod amount;
pub mod codec;
pub mod decimal;
pub mod error;
pub mod job_queue;
pub mod laws;
pub mod types;

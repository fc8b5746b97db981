//! A staking-pool ledger.
//!
//! A pool authority creates a reward-bearing staking pool; participants
//! deposit stake, withdraw it, and claim the rewards that accrue on it over
//! time. This crate holds the state-transition core: the record types, the
//! reward-accrual formula, and the four operations `initialize`, `deposit`,
//! `withdraw` and `claim`, each a pure function from record snapshots and a
//! monotonic time value to updated snapshots or a typed error. Storage,
//! signature checks and the instruction envelope are the host's concern and
//! live outside this crate.

pub mod engine;
pub mod laws;
pub mod state;

//! Verified transition functions for three small on-ledger modules: a price
//! oracle, a collateral-for-token exchange, and a staking exchange whose
//! withdrawal runs as a three-phase, self-chaining pipeline.
//!
//! Every entry point is a function from plain values (the persisted
//! configuration, the caller, what the host answered to a query) to either an
//! error or a [`response::Response`] listing the follow-up actions for the host.

pub mod auth;
pub mod error;
pub mod funds;
pub mod math;
pub mod oracle;
pub mod response;
pub mod swap;
pub mod swap2;
pub mod token;
pub mod types;
pub mod withdrawal;

//! The staking exchange: collateral is delegated to a validator, and the
//! owner withdraws through a pipeline of three chained invocations.

pub mod contract;
pub mod ledger;
pub mod msg;
pub mod pipeline;
pub mod state;

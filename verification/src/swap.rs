//! The plain exchange: tokens are minted against collateral, and the owner
//! withdraws the collateral that the contract holds.

pub mod contract;
pub mod msg;
pub mod state;

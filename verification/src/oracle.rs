//! The price oracle: one price, written by the owner, read by everybody.

pub mod contract;
pub mod msg;
pub mod state;

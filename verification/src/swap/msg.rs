//! What the plain exchange can be asked to do.

use vstd::prelude::*;
use crate::types::Addr;

verus! {

/// `token_address` is taken as the caller wrote it; whoever receives it from
/// outside has it validated by the host before the exchange is instantiated.
#[derive(Debug, PartialEq)]
pub struct InstantiateMsg {
    pub token_address: String,
    pub oracle_address: Addr,
}

#[derive(Debug, PartialEq)]
pub enum ExecuteMsg {
    /// Pay collateral, receive newly minted tokens.
    Buy {},
    /// Pay `amount` of the collateral held out to the owner.
    Withdraw { amount: i32 },
}

/// What an [`ExecuteMsg`] stands for.
pub enum ExecuteMsgView {
    Buy,
    Withdraw { amount: int },
}

impl View for ExecuteMsg {
    type V = ExecuteMsgView;

    open spec fn view(&self) -> ExecuteMsgView {
        match self {
            ExecuteMsg::Buy {  } => ExecuteMsgView::Buy,
            ExecuteMsg::Withdraw { amount } => ExecuteMsgView::Withdraw { amount: *amount as int },
        }
    }
}

#[derive(Debug, PartialEq)]
pub enum QueryMsg {
    State {},
}

} // verus!

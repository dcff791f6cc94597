//! What the staking exchange can be asked to do.

use vstd::prelude::*;
use crate::types::Addr;

verus! {

#[derive(Debug, PartialEq)]
pub struct InstantiateMsg {
    pub token_address: Addr,
    pub oracle_address: Addr,
}

#[allow(inconsistent_fields)]
#[derive(Debug, PartialEq)]
pub enum ExecuteMsg {
    /// Pay collateral, receive tokens.
    Buy {},
    /// First phase of a withdrawal of `amount`: collect the staking rewards.
    Withdraw { amount: u64 },
    /// Second phase: convert every native asset held into the base asset.
    WithdrawStep2ConvertRewardsToLuna {},
    /// Third phase: pay `amount` of the base asset to `recipient`, who began
    /// the withdrawal.
    WithdrawStep3SendLuna { amount: u64, recipient: Addr },
    /// Begin to undelegate `amount`.
    StartUndelegation { amount: u128 },
}

/// What an [`ExecuteMsg`] stands for.
#[allow(inconsistent_fields)]
pub enum ExecuteMsgView {
    Buy,
    Withdraw { amount: nat },
    WithdrawStep2ConvertRewardsToLuna,
    WithdrawStep3SendLuna { amount: nat, recipient: Seq<char> },
    StartUndelegation { amount: nat },
}

impl View for ExecuteMsg {
    type V = ExecuteMsgView;

    open spec fn view(&self) -> ExecuteMsgView {
        match self {
            ExecuteMsg::Buy {  } => ExecuteMsgView::Buy,
            ExecuteMsg::Withdraw { amount } => ExecuteMsgView::Withdraw { amount: *amount as nat },
            ExecuteMsg::WithdrawStep2ConvertRewardsToLuna {  } =>
                ExecuteMsgView::WithdrawStep2ConvertRewardsToLuna,
            ExecuteMsg::WithdrawStep3SendLuna { amount, recipient } =>
                ExecuteMsgView::WithdrawStep3SendLuna {
                    amount: *amount as nat,
                    recipient: recipient@,
                },
            ExecuteMsg::StartUndelegation { amount } => ExecuteMsgView::StartUndelegation {
                amount: *amount as nat,
            },
        }
    }
}

#[derive(Debug, PartialEq)]
pub enum QueryMsg {
    QueryTokenAddress {},
}

} // verus!

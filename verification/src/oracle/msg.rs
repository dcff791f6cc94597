//! What the oracle can be asked.

use vstd::prelude::*;

verus! {

#[derive(Debug, PartialEq)]
pub struct InstantiateMsg {
    pub price: u64,
}

#[derive(Debug, PartialEq)]
pub enum ExecuteMsg {
    UpdatePrice { price: u64 },
}

#[derive(Debug, PartialEq)]
pub enum QueryMsg {
    QueryPrice {},
}

/// The oracle's answer to `QueryPrice`.
#[derive(Debug, PartialEq)]
pub struct PriceResponse {
    pub price: u64,
}

} // verus!

//! The persisted configuration of the staking exchange.

use vstd::prelude::*;
use crate::types::Addr;

verus! {

/// Created at instantiation and not changed afterwards.
#[derive(Debug, PartialEq)]
pub struct State {
    /// Who may withdraw.
    pub owner: Addr,
    /// The module of the synthetic token that is handed out for collateral.
    pub token_address: Addr,
    /// The price oracle that is asked for the conversion rate.
    pub oracle_address: Addr,
}

/// What a [`State`] stands for.
pub struct StateView {
    pub owner: Seq<char>,
    pub token_address: Seq<char>,
    pub oracle_address: Seq<char>,
}

impl View for State {
    type V = StateView;

    open spec fn view(&self) -> StateView {
        StateView {
            owner: self.owner@,
            token_address: self.token_address@,
            oracle_address: self.oracle_address@,
        }
    }
}

impl Clone for State {
    fn clone(&self) -> (r: State)
        ensures
            r@ == self@,
    {
        State {
            owner: self.owner.clone(),
            token_address: self.token_address.clone(),
            oracle_address: self.oracle_address.clone(),
        }
    }
}

} // verus!

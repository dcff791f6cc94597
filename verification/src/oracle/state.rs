//! The persisted state of the oracle.

use vstd::prelude::*;
use crate::types::Addr;

verus! {

#[derive(Debug, PartialEq)]
pub struct State {
    /// The price, in collateral per token. It is never zero.
    pub price: u64,
    /// Who may set the price. The owner never changes.
    pub owner: Addr,
}

/// What a [`State`] stands for.
pub struct StateView {
    pub price: nat,
    pub owner: Seq<char>,
}

impl View for State {
    type V = StateView;

    open spec fn view(&self) -> StateView {
        StateView { price: self.price as nat, owner: self.owner@ }
    }
}

impl State {
    /// What holds of every state that the oracle persists.
    pub open spec fn wf(&self) -> bool {
        self.price > 0
    }
}

} // verus!

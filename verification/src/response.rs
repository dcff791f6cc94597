//! What an invocation hands back to the host: an ordered list of actions.

use vstd::prelude::*;
use crate::error::ContractError;
use crate::swap2::msg::{ExecuteMsg, ExecuteMsgView};
use crate::types::{Attribute, AttributeView, Coin, CoinView};

verus! {

/// An instruction for the host. The host carries out the actions of one
/// response in the order in which they were emitted, all or none.
#[allow(inconsistent_fields)]
#[derive(Debug, PartialEq)]
pub enum Action {
    /// Call the module at `contract_addr` with the encoded message `msg`.
    Execute { contract_addr: String, msg: Vec<u8>, funds: Vec<Coin> },
    /// Call the emitting contract itself with `msg`, as a fresh invocation
    /// within the same atomic unit.
    SelfCall { contract_addr: String, msg: ExecuteMsg },
    /// Pay `amount` out of the contract's balance to `to_address`.
    Send { to_address: String, amount: Vec<Coin> },
    /// Delegate `amount` to `validator`.
    Delegate { validator: String, amount: Coin },
    /// Collect the staking rewards accrued with `validator`.
    WithdrawDelegatorReward { validator: String },
    /// Exchange `offer_coin` for `ask_denom` on the native market.
    Swap { offer_coin: Coin, ask_denom: String },
}

/// What an [`Action`] stands for.
#[allow(inconsistent_fields)]
pub enum ActionView {
    Execute { contract_addr: Seq<char>, msg: Seq<u8>, funds: Seq<CoinView> },
    SelfCall { contract_addr: Seq<char>, msg: ExecuteMsgView },
    Send { to_address: Seq<char>, amount: Seq<CoinView> },
    Delegate { validator: Seq<char>, amount: CoinView },
    WithdrawDelegatorReward { validator: Seq<char> },
    Swap { offer_coin: CoinView, ask_denom: Seq<char> },
}

impl View for Action {
    type V = ActionView;

    open spec fn view(&self) -> ActionView {
        match self {
            Action::Execute { contract_addr, msg, funds } => ActionView::Execute {
                contract_addr: contract_addr@,
                msg: msg@,
                funds: funds.deep_view(),
            },
            Action::SelfCall { contract_addr, msg } => ActionView::SelfCall {
                contract_addr: contract_addr@,
                msg: msg@,
            },
            Action::Send { to_address, amount } => ActionView::Send {
                to_address: to_address@,
                amount: amount.deep_view(),
            },
            Action::Delegate { validator, amount } => ActionView::Delegate {
                validator: validator@,
                amount: amount@,
            },
            Action::WithdrawDelegatorReward { validator } => ActionView::WithdrawDelegatorReward {
                validator: validator@,
            },
            Action::Swap { offer_coin, ask_denom } => ActionView::Swap {
                offer_coin: offer_coin@,
                ask_denom: ask_denom@,
            },
        }
    }
}

impl DeepView for Action {
    type V = ActionView;

    open spec fn deep_view(&self) -> ActionView {
        self@
    }
}

/// The outcome of a successful invocation.
#[derive(Debug, PartialEq)]
pub struct Response {
    /// The actions for the host, in the order in which it is to process them.
    pub messages: Vec<Action>,
    /// What the invocation logs.
    pub attributes: Vec<Attribute>,
}

/// What a [`Response`] stands for.
pub struct ResponseView {
    pub messages: Seq<ActionView>,
    pub attributes: Seq<AttributeView>,
}

impl View for Response {
    type V = ResponseView;

    open spec fn view(&self) -> ResponseView {
        ResponseView {
            messages: self.messages.deep_view(),
            attributes: self.attributes.deep_view(),
        }
    }
}

impl Response {
    /// A response without actions and without attributes.
    pub fn new() -> (r: Response)
        ensures
            r@.messages == Seq::<ActionView>::empty(),
            r@.attributes == Seq::<AttributeView>::empty(),
    {
        Response { messages: Vec::new(), attributes: Vec::new() }
    }

    /// The response with `msg` added behind the actions it already has.
    pub fn add_message(self, msg: Action) -> (r: Response)
        ensures
            r@.messages == self@.messages.push(msg@),
            r@.attributes == self@.attributes,
    {
        let mut messages = self.messages;
        messages.push(msg);
        Response { messages, attributes: self.attributes }
    }

    /// The response with `msgs` added, in their order, behind the actions it
    /// already has.
    pub fn add_messages(self, msgs: Vec<Action>) -> (r: Response)
        ensures
            r@.messages == self@.messages + msgs.deep_view(),
            r@.attributes == self@.attributes,
    {
        let mut messages = self.messages;
        let mut msgs = msgs;
        messages.append(&mut msgs);
        Response { messages, attributes: self.attributes }
    }

    /// The response with `attribute` added behind those it already has.
    pub fn add_attribute(self, attribute: Attribute) -> (r: Response)
        ensures
            r@.messages == self@.messages,
            r@.attributes == self@.attributes.push(attribute@),
    {
        let mut attributes = self.attributes;
        attributes.push(attribute);
        Response { messages: self.messages, attributes }
    }
}

/// What the caller sees of an invocation: what the response stands for, or
/// the error.
pub open spec fn outcome(r: Result<Response, ContractError>) -> Result<
    ResponseView,
    ContractError,
> {
    match r {
        Ok(response) => Ok(response@),
        Err(e) => Err(e),
    }
}

/// The single attribute `action = value`.
pub open spec fn action_attr(value: Seq<char>) -> Seq<AttributeView> {
    seq![AttributeView { key: "action"@, value }]
}

} // verus!

//! Calls into the token module, and their encoding for the wire.

use vstd::prelude::*;
use cosmwasm_std::{to_binary, StdError, Uint128};
use cw20::Cw20ExecuteMsg;

verus! {

/// A call that the exchanges make into the synthetic token's module.
#[derive(Debug, PartialEq)]
pub enum TokenMsg {
    /// Move `amount` tokens from the caller of the token module to `recipient`.
    Transfer { recipient: String, amount: u128 },
    /// Create `amount` new tokens and give them to `recipient`.
    Mint { recipient: String, amount: u128 },
}

/// What a [`TokenMsg`] stands for.
pub enum TokenMsgView {
    Transfer { recipient: Seq<char>, amount: nat },
    Mint { recipient: Seq<char>, amount: nat },
}

impl View for TokenMsg {
    type V = TokenMsgView;

    open spec fn view(&self) -> TokenMsgView {
        match self {
            TokenMsg::Transfer { recipient, amount } => TokenMsgView::Transfer {
                recipient: recipient@,
                amount: *amount as nat,
            },
            TokenMsg::Mint { recipient, amount } => TokenMsgView::Mint {
                recipient: recipient@,
                amount: *amount as nat,
            },
        }
    }
}

/// The bytes that `cosmwasm_std::to_binary` gives for the `cw20` message that
/// `msg` stands for, or `None` where it reports an error.
pub uninterp spec fn cw20_json(msg: TokenMsgView) -> Option<Seq<u8>>;

/// `cosmwasm_std::to_binary` on the `Cw20ExecuteMsg` with the variant and the
/// fields of `msg`: its JSON encoding. The encoding is a function of the
/// message alone; what it looks like is not stated. Trusted, not proved.
#[verifier::external_body]
pub(crate) fn encode(msg: &TokenMsg) -> (r: Result<Vec<u8>, StdError>)
    ensures
        match r {
            Ok(bytes) => cw20_json(msg@) == Some(bytes@),
            Err(_) => cw20_json(msg@) is None,
        },
{
    let wire = match msg {
        TokenMsg::Transfer { recipient, amount } => Cw20ExecuteMsg::Transfer {
            recipient: recipient.clone(),
            amount: Uint128::new(*amount),
        },
        TokenMsg::Mint { recipient, amount } => Cw20ExecuteMsg::Mint {
            recipient: recipient.clone(),
            amount: Uint128::new(*amount),
        },
    };
    to_binary(&wire).map(|binary| binary.0)
}

} // verus!

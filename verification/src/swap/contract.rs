//! The entry points of the plain exchange.

use vstd::prelude::*;
use cosmwasm_std::StdError;
use crate::error::ContractError;
use crate::funds::{collateral, is_payment, lemma_first_payment_exists, luna_payment};
use crate::math::{lemma_tokens_for_is_floor, lemons_for, tokens_for};
use crate::response::{action_attr, outcome, Action, ActionView, Response, ResponseView};
use crate::swap::msg::{ExecuteMsg, ExecuteMsgView, InstantiateMsg, QueryMsg};
use crate::swap::state::{State, StateView};
use crate::token::{cw20_json, encode, TokenMsg, TokenMsgView};
use crate::types::{attr, base_denom, Addr, Coin, CoinView, MessageInfo, MessageInfoView};
use crate::withdrawal::{withdraw, withdrawal_view};

verus! {

/// The configuration with which the exchange begins: the caller becomes the
/// owner. Nothing is emitted.
pub fn instantiate(info: &MessageInfo, msg: InstantiateMsg) -> (r: Result<
    (State, Response),
    ContractError,
>)
    ensures
        r matches Ok((state, response)) && state@ == (StateView {
            owner: info@.sender,
            token_address: msg.token_address@,
            oracle_address: msg.oracle_address@,
        }) && response@ == (ResponseView { messages: Seq::empty(), attributes: Seq::empty() }),
{
    let state = State {
        owner: info.sender.clone(),
        token_address: Addr { address: msg.token_address },
        oracle_address: msg.oracle_address,
    };
    Ok((state, Response::new()))
}

/// The call into the token module that mints the buyer's tokens.
pub open spec fn buy_token_msg(sender: Seq<char>, paid: nat, price: nat) -> TokenMsgView {
    TokenMsgView::Mint { recipient: sender, amount: tokens_for(paid, price) }
}

/// What a purchase answers once the token call is encoded as `payload`: the
/// token module is called, and nothing else.
pub open spec fn buy_response_view(state: StateView, payload: Seq<u8>) -> ResponseView {
    ResponseView {
        messages: seq![
            ActionView::Execute {
                contract_addr: state.token_address,
                msg: payload,
                funds: Seq::<CoinView>::empty(),
            },
        ],
        attributes: action_attr("buy_lemons"@),
    }
}

/// The answer to a purchase, given how the encoding of the token call went:
/// its error is passed on, its bytes go into the one action.
pub fn buy_response(state: &State, encoded: Result<Vec<u8>, StdError>) -> (r: Result<
    Response,
    ContractError,
>)
    ensures
        match encoded {
            Ok(payload) => r matches Ok(response) && response@ == buy_response_view(
                state@,
                payload@,
            ),
            Err(e) => r == Err::<Response, ContractError>(ContractError::Std(e)),
        },
{
    let payload = match encoded {
        Ok(payload) => payload,
        Err(e) => {
            return Err(ContractError::Std(e));
        },
    };
    let funds: Vec<Coin> = Vec::new();
    assert(funds.deep_view() =~= Seq::<CoinView>::empty());
    let mint = Action::Execute {
        contract_addr: state.token_address.to_string(),
        msg: payload,
        funds,
    };
    Ok(Response::new().add_attribute(attr("action", "buy_lemons")).add_message(mint))
}

/// What a purchase at `price` answers to `info`: a call without collateral
/// is refused with `NoFundsSent`; otherwise the quotient of collateral and
/// price, rounded down, is minted to the buyer. Where the token call cannot
/// be encoded, the encoder's error is passed on.
pub open spec fn buy_outcome(
    state: StateView,
    info: MessageInfoView,
    price: nat,
    r: Result<Response, ContractError>,
) -> bool {
    match r {
        Ok(response) => collateral(info.funds) matches Ok(paid) && cw20_json(
            buy_token_msg(info.sender, paid, price),
        ) matches Some(payload) && response@ == buy_response_view(state, payload),
        Err(ContractError::NoFundsSent) => collateral(info.funds) is Err,
        Err(ContractError::Std(_)) => collateral(info.funds) matches Ok(paid) && cw20_json(
            buy_token_msg(info.sender, paid, price),
        ) is None,
        Err(_) => false,
    }
}

/// Mints tokens for the collateral that came with the call, at `price`
/// collateral per token as the oracle reported it.
pub fn execute_buy(state: &State, info: &MessageInfo, price: u64) -> (r: Result<
    Response,
    ContractError,
>)
    requires
        price > 0,
    ensures
        buy_outcome(state@, info@, price as nat, r),
{
    let paid = luna_payment(info)?;
    let lemons_to_sell = lemons_for(paid, price);
    let mint = TokenMsg::Mint { recipient: info.sender.to_string(), amount: lemons_to_sell };
    buy_response(state, encode(&mint))
}

/// A purchase without any non-empty coin of the base asset among its funds
/// is refused with `NoFundsSent`, at any price.
pub proof fn lemma_no_collateral_no_purchase(
    state: StateView,
    info: MessageInfoView,
    price: nat,
    r: Result<Response, ContractError>,
)
    requires
        forall|i: int| 0 <= i < info.funds.len() ==> !is_payment(info.funds[i], base_denom()),
        buy_outcome(state, info, price, r),
    ensures
        r == Err::<Response, ContractError>(ContractError::NoFundsSent),
{
    lemma_first_payment_exists(info.funds, base_denom());
}

/// A purchase that succeeds took collateral, and what its first action
/// carries is the encoded call that gives the buyer the quotient of
/// collateral and price, rounded down and never up.
pub proof fn lemma_purchase_never_rounds_up(
    state: StateView,
    info: MessageInfoView,
    price: nat,
    r: Result<Response, ContractError>,
)
    requires
        price > 0,
        buy_outcome(state, info, price, r),
        r is Ok,
    ensures
        collateral(info.funds) matches Ok(paid) && paid > 0 && ({
            let owed = tokens_for(paid, price);
            &&& owed * price <= paid < (owed + 1) * price
            &&& cw20_json(TokenMsgView::Mint { recipient: info.sender, amount: owed }) matches Some(
                payload,
            )
            &&& r->Ok_0@.messages[0] == ActionView::Execute {
                contract_addr: state.token_address,
                msg: payload,
                funds: Seq::<CoinView>::empty(),
            }
        }),
{
    lemma_first_payment_exists(info.funds, base_denom());
    lemma_tokens_for_is_floor(collateral(info.funds)->Ok_0, price);
}

/// Pays `amount` of the collateral out to the owner. `balance` is what the
/// contract holds of it as of this invocation.
pub fn execute_withdraw(state: &State, info: &MessageInfo, amount: i32, balance: u128) -> (r:
    Result<Response, ContractError>)
    ensures
        outcome(r) == withdrawal_view(state@.owner, info@.sender, amount as int, balance as nat),
{
    withdraw(&state.owner, info, amount, balance)
}

/// What the exchange answers to `msg`, by the operation that `msg` names.
pub open spec fn executed(
    state: StateView,
    info: MessageInfoView,
    msg: ExecuteMsgView,
    price: nat,
    balance: nat,
    r: Result<Response, ContractError>,
) -> bool {
    match msg {
        ExecuteMsgView::Buy => buy_outcome(state, info, price, r),
        ExecuteMsgView::Withdraw { amount } => outcome(r) == withdrawal_view(
            state.owner,
            info.sender,
            amount,
            balance,
        ),
    }
}

/// Carries out `msg`. `price` is what the oracle reports, `balance` what the
/// contract holds of the collateral, both as of this invocation.
pub fn execute(state: &State, info: &MessageInfo, msg: ExecuteMsg, price: u64, balance: u128) -> (r:
    Result<Response, ContractError>)
    requires
        msg is Buy ==> price > 0,
    ensures
        executed(state@, info@, msg@, price as nat, balance as nat, r),
{
    match msg {
        ExecuteMsg::Buy {  } => execute_buy(state, info, price),
        ExecuteMsg::Withdraw { amount } => execute_withdraw(state, info, amount, balance),
    }
}

/// Migration changes nothing and emits nothing.
pub fn migrate() -> (r: Result<Response, ContractError>)
    ensures
        r matches Ok(response) && response@ == (ResponseView {
            messages: Seq::empty(),
            attributes: Seq::empty(),
        }),
{
    Ok(Response::new())
}

/// The configuration as it is persisted.
pub fn query_state(state: &State) -> (r: Result<State, ContractError>)
    ensures
        r matches Ok(found) && found@ == state@,
{
    Ok(state.clone())
}

/// Answers `msg` from the persisted configuration.
pub fn query(state: &State, msg: &QueryMsg) -> (r: Result<State, ContractError>)
    ensures
        r matches Ok(found) && found@ == state@,
{
    match msg {
        QueryMsg::State {  } => query_state(state),
    }
}

} // verus!

//! The entry points of the staking exchange.

use vstd::prelude::*;
use cosmwasm_std::StdError;
use crate::auth::{ensure_owner, ensure_self};
use crate::error::ContractError;
use crate::funds::{collateral, is_payment, lemma_first_payment_exists, luna_payment};
use crate::math::{lemma_tokens_for_is_floor, lemons_for, tokens_for};
use crate::response::{action_attr, outcome, Action, ActionView, Response, ResponseView};
use crate::swap2::ledger::{balance_of, held, Ledger, LedgerView};
use crate::swap2::msg::{ExecuteMsg, ExecuteMsgView, InstantiateMsg, QueryMsg};
use crate::swap2::state::{State, StateView};
use crate::token::{cw20_json, encode, TokenMsg, TokenMsgView};
use crate::types::{
    attr, base_denom, Addr, Coin, CoinView, Delegation, DelegationView, Env,
    ExchangeRatesResponse, ExchangeRatesResponseView, MessageInfo, MessageInfoView,
};
use crate::withdrawal::{payout, payout_view, withdraw, withdrawal_view};

verus! {

/// The validator with whom all collateral is staked.
pub const VALIDATOR: &'static str = "terravaloper1ze5dxzs4zcm60tg48m9unp8eh7maerma38dl84";

/// The call into the token module that hands the buyer the tokens.
pub open spec fn buy_token_msg(sender: Seq<char>, paid: nat, price: nat) -> TokenMsgView {
    TokenMsgView::Transfer { recipient: sender, amount: tokens_for(paid, price) }
}

/// What a purchase answers once the token call is encoded as `payload`:
/// first the token module is called, then all of `paid` is delegated.
pub open spec fn buy_response_view(state: StateView, paid: nat, payload: Seq<u8>) -> ResponseView {
    ResponseView {
        messages: seq![
            ActionView::Execute {
                contract_addr: state.token_address,
                msg: payload,
                funds: Seq::<CoinView>::empty(),
            },
            ActionView::Delegate {
                validator: VALIDATOR@,
                amount: CoinView { denom: base_denom(), amount: paid },
            },
        ],
        attributes: action_attr("buy_lemons"@),
    }
}

/// The answer to a purchase of `paid`, given how the encoding of the token
/// call went: its error is passed on, its bytes go into the first action.
pub fn buy_response(state: &State, paid: u128, encoded: Result<Vec<u8>, StdError>) -> (r: Result<
    Response,
    ContractError,
>)
    ensures
        match encoded {
            Ok(payload) => r matches Ok(response) && response@ == buy_response_view(
                state@,
                paid as nat,
                payload@,
            ),
            Err(e) => r == Err::<Response, ContractError>(ContractError::Std(e)),
        },
{
    let payload = match encoded {
        Ok(payload) => payload,
        Err(e) => {
            return Err(ContractError::Std(e));
        },
    };
    let ghost bytes = payload@;
    let funds: Vec<Coin> = Vec::new();
    assert(funds.deep_view() =~= Seq::<CoinView>::empty());
    let transfer = Action::Execute {
        contract_addr: state.token_address.to_string(),
        msg: payload,
        funds,
    };
    let delegate = Action::Delegate {
        validator: VALIDATOR.to_owned(),
        amount: Coin::new(paid, "uluna"),
    };
    let response = Response::new().add_attribute(attr("action", "buy_lemons")).add_message(
        transfer,
    ).add_message(delegate);
    assert(response@.messages =~= buy_response_view(state@, paid as nat, bytes).messages);
    Ok(response)
}

/// What a purchase at `price` answers to `info`: a call without collateral
/// is refused with `NoFundsSent`; otherwise the buyer is owed the quotient of
/// collateral and price, rounded down, and the answer hands those tokens over
/// and delegates the whole collateral. Where the token call cannot be
/// encoded, the encoder's error is passed on.
pub open spec fn buy_outcome(
    state: StateView,
    info: MessageInfoView,
    price: nat,
    r: Result<Response, ContractError>,
) -> bool {
    match r {
        Ok(response) => collateral(info.funds) matches Ok(paid) && cw20_json(
            buy_token_msg(info.sender, paid, price),
        ) matches Some(payload) && response@ == buy_response_view(state, paid, payload),
        Err(ContractError::NoFundsSent) => collateral(info.funds) is Err,
        Err(ContractError::Std(_)) => collateral(info.funds) matches Ok(paid) && cw20_json(
            buy_token_msg(info.sender, paid, price),
        ) is None,
        Err(_) => false,
    }
}

/// Buys tokens with the collateral that came with the call, at `price`
/// collateral per token as the oracle reported it.
pub fn try_buy(state: &State, info: &MessageInfo, price: u64) -> (r: Result<
    Response,
    ContractError,
>)
    requires
        price > 0,
    ensures
        buy_outcome(state@, info@, price as nat, r),
{
    let paid = luna_payment(info)?;
    let lemons_to_sell = lemons_for(paid, price);
    let transfer = TokenMsg::Transfer { recipient: info.sender.to_string(), amount: lemons_to_sell };
    buy_response(state, paid, encode(&transfer))
}

/// A purchase without any non-empty coin of the base asset among its funds
/// is refused with `NoFundsSent`, at any price.
pub proof fn lemma_no_collateral_no_purchase(
    state: StateView,
    info: MessageInfoView,
    price: nat,
    r: Result<Response, ContractError>,
)
    requires
        forall|i: int| 0 <= i < info.funds.len() ==> !is_payment(info.funds[i], base_denom()),
        buy_outcome(state, info, price, r),
    ensures
        r == Err::<Response, ContractError>(ContractError::NoFundsSent),
{
    lemma_first_payment_exists(info.funds, base_denom());
}

/// A purchase that succeeds took collateral, and what its first action
/// carries is the encoded call that gives the buyer the quotient of
/// collateral and price, rounded down and never up.
pub proof fn lemma_purchase_never_rounds_up(
    state: StateView,
    info: MessageInfoView,
    price: nat,
    r: Result<Response, ContractError>,
)
    requires
        price > 0,
        buy_outcome(state, info, price, r),
        r is Ok,
    ensures
        collateral(info.funds) matches Ok(paid) && paid > 0 && ({
            let owed = tokens_for(paid, price);
            &&& owed * price <= paid < (owed + 1) * price
            &&& cw20_json(TokenMsgView::Transfer { recipient: info.sender, amount: owed }) matches Some(
                payload,
            )
            &&& r->Ok_0@.messages[0] == ActionView::Execute {
                contract_addr: state.token_address,
                msg: payload,
                funds: Seq::<CoinView>::empty(),
            }
        }),
{
    lemma_first_payment_exists(info.funds, base_denom());
    lemma_tokens_for_is_floor(collateral(info.funds)->Ok_0, price);
}

/// The collection of the rewards that one delegation has accrued.
pub open spec fn reward_action(delegation: DelegationView) -> ActionView {
    ActionView::WithdrawDelegatorReward { validator: delegation.validator }
}

/// One collection per delegation, in the order of the delegations; none
/// where the staking module gave no answer.
pub open spec fn reward_actions(delegations: Option<Seq<DelegationView>>) -> Seq<ActionView> {
    match delegations {
        Some(found) => Seq::new(found.len(), |i: int| reward_action(found[i])),
        None => Seq::empty(),
    }
}

/// The actions that collect the rewards of every delegation the contract
/// has. `delegations` is what the staking module answered, `None` where it
/// gave no answer; that, like an empty answer, is no error.
pub fn collect_all_rewards(delegations: &Option<Vec<Delegation>>) -> (r: Result<
    Vec<Action>,
    ContractError,
>)
    ensures
        r matches Ok(messages) && messages.deep_view() == reward_actions(delegations.deep_view()),
{
    let mut messages: Vec<Action> = Vec::new();
    if let Some(found) = delegations {
        let mut i: usize = 0;
        while i < found.len()
            invariant
                i <= found.len(),
                messages.len() == i,
                forall|j: int|
                    0 <= j < i ==> messages.deep_view()[j] == reward_action(
                        #[trigger] found.deep_view()[j],
                    ),
            decreases found.len() - i,
        {
            messages.push(Action::WithdrawDelegatorReward { validator: found[i].validator.clone() });
            i += 1;
        }
    } else {
    }
    Ok(messages)
}

/// The two self-calls that continue a withdrawal of `amount` begun by
/// `recipient`: first the conversion, then the payment.
pub open spec fn continuations(this: Seq<char>, amount: nat, recipient: Seq<char>) -> Seq<
    ActionView,
> {
    seq![
        ActionView::SelfCall {
            contract_addr: this,
            msg: ExecuteMsgView::WithdrawStep2ConvertRewardsToLuna,
        },
        ActionView::SelfCall {
            contract_addr: this,
            msg: ExecuteMsgView::WithdrawStep3SendLuna { amount, recipient },
        },
    ]
}

/// The first phase of a withdrawal: only the owner may begin one. The
/// rewards are collected first, then the contract calls itself for the second
/// phase, then for the third, which carries the amount and the beneficiary.
pub open spec fn step1_view(
    state: StateView,
    this: Seq<char>,
    sender: Seq<char>,
    amount: nat,
    delegations: Option<Seq<DelegationView>>,
) -> Result<ResponseView, ContractError> {
    if sender != state.owner {
        Err(ContractError::Unauthorized)
    } else {
        Ok(
            ResponseView {
                messages: reward_actions(delegations) + continuations(this, amount, sender),
                attributes: Seq::empty(),
            },
        )
    }
}

/// Begins a withdrawal of `amount` of the base asset.
pub fn try_withdraw_step1_collect_rewards(
    state: &State,
    env: &Env,
    info: &MessageInfo,
    amount: u64,
    delegations: &Option<Vec<Delegation>>,
) -> (r: Result<Response, ContractError>)
    ensures
        outcome(r) == step1_view(
            state@,
            env.this(),
            info@.sender,
            amount as nat,
            delegations.deep_view(),
        ),
{
    ensure_owner(&state.owner, info)?;
    let reward_messages = match collect_all_rewards(delegations) {
        Ok(messages) => messages,
        Err(e) => {
            return Err(e);
        },
    };
    let convert = Action::SelfCall {
        contract_addr: env.contract.address.to_string(),
        msg: ExecuteMsg::WithdrawStep2ConvertRewardsToLuna {  },
    };
    let send = Action::SelfCall {
        contract_addr: env.contract.address.to_string(),
        msg: ExecuteMsg::WithdrawStep3SendLuna { amount, recipient: info.sender.clone() },
    };
    let response = Response::new().add_messages(reward_messages).add_message(convert).add_message(
        send,
    );
    assert(response@.messages =~= reward_actions(delegations.deep_view()) + continuations(
        env.this(),
        amount as nat,
        info@.sender,
    ));
    Ok(response)
}

/// The denominations for which the service reported a rate.
pub open spec fn known_denoms(rates: ExchangeRatesResponseView) -> Seq<Seq<char>> {
    Seq::new(rates.exchange_rates.len(), |i: int| rates.exchange_rates[i].quote_denom)
}

/// A holding is converted if it is not in the base asset already and the
/// service knows a rate for it.
pub open spec fn is_convertible(coin: CoinView, rates: ExchangeRatesResponseView) -> bool {
    coin.denom != base_denom() && known_denoms(rates).contains(coin.denom)
}

/// `is_convertible` at the rates `rates`, as a predicate on holdings.
pub open spec fn convertible(rates: ExchangeRatesResponseView) -> spec_fn(CoinView) -> bool {
    |coin: CoinView| is_convertible(coin, rates)
}

/// The exchange of a whole holding for the base asset.
pub open spec fn swap_action(coin: CoinView) -> ActionView {
    ActionView::Swap { offer_coin: coin, ask_denom: base_denom() }
}

/// One exchange for each convertible holding, in the order of the balance.
pub open spec fn conversions(balance: Seq<CoinView>, rates: ExchangeRatesResponseView) -> Seq<
    ActionView,
> {
    let offered = balance.filter(convertible(rates));
    Seq::new(offered.len(), |i: int| swap_action(offered[i]))
}

/// Whether the service reported a rate for `denom`.
pub fn knows(rates: &ExchangeRatesResponse, denom: &String) -> (r: bool)
    ensures
        r == known_denoms(rates@).contains(denom@),
{
    let mut i: usize = 0;
    while i < rates.exchange_rates.len()
        invariant
            i <= rates.exchange_rates.len(),
            forall|j: int| 0 <= j < i ==> #[trigger] known_denoms(rates@)[j] != denom@,
        decreases rates.exchange_rates.len() - i,
    {
        if rates.exchange_rates[i].quote_denom == *denom {
            assert(known_denoms(rates@)[i as int] == denom@);
            return true;
        }
        i += 1;
    }
    false
}

/// The second phase of a withdrawal: only the contract itself may ask for
/// it. Every convertible holding is exchanged for the base asset.
pub open spec fn step2_view(
    this: Seq<char>,
    sender: Seq<char>,
    balance: Seq<CoinView>,
    rates: ExchangeRatesResponseView,
) -> Result<ResponseView, ContractError> {
    if sender != this {
        Err(ContractError::Unauthorized)
    } else {
        Ok(ResponseView { messages: conversions(balance, rates), attributes: action_attr("swap"@) })
    }
}

/// Converts what the contract holds into the base asset. `balance` is the
/// contract's complete balance as of this invocation, `exchange_rates` the
/// service's answer for the denominations in it.
pub fn try_withdraw_step2_convert_all_native_coins_to_luna(
    env: &Env,
    info: &MessageInfo,
    balance: &Vec<Coin>,
    exchange_rates: &ExchangeRatesResponse,
) -> (r: Result<Response, ContractError>)
    ensures
        outcome(r) == step2_view(env.this(), info@.sender, balance.deep_view(), exchange_rates@),
{
    ensure_self(env, info)?;
    let base = "uluna".to_owned();
    let mut messages: Vec<Action> = Vec::new();
    let ghost pred = convertible(exchange_rates@);
    let mut i: usize = 0;
    proof {
        reveal(Seq::filter);
    }
    while i < balance.len()
        invariant
            i <= balance.len(),
            base@ == base_denom(),
            pred == convertible(exchange_rates@),
            messages.deep_view() =~= conversions(
                balance.deep_view().take(i as int),
                exchange_rates@,
            ),
        decreases balance.len() - i,
    {
        let coin = &balance[i];
        let ghost seen = balance.deep_view().take(i as int);
        let ghost before = messages.deep_view();
        proof {
            assert(balance.deep_view().take(i + 1) =~= seen.push(coin@));
            seen.lemma_filter_push(coin@, pred);
        }
        if coin.denom != base && knows(exchange_rates, &coin.denom) {
            messages.push(Action::Swap { offer_coin: coin.clone(), ask_denom: base.clone() });
            assert(messages.deep_view() =~= before.push(swap_action(coin@)));
        }
        i += 1;
    }
    assert(balance.deep_view().take(balance.len() as int) =~= balance.deep_view());
    Ok(Response::new().add_messages(messages).add_attribute(attr("action", "swap")))
}

/// The third phase of a withdrawal: only the contract itself may ask for
/// it, and only for what it holds of the base asset by then. The payment
/// goes to the beneficiary who began the withdrawal.
pub open spec fn step3_view(
    this: Seq<char>,
    sender: Seq<char>,
    amount: nat,
    recipient: Seq<char>,
    balance: nat,
) -> Result<ResponseView, ContractError> {
    if sender != this {
        Err(ContractError::Unauthorized)
    } else if balance < amount {
        Err(ContractError::InsufficientBalance)
    } else {
        Ok(payout_view(recipient, amount))
    }
}

/// Pays `amount` of the base asset to `recipient`. `balance` is what the
/// contract holds of the base asset as of this invocation.
pub fn try_withdraw_step3_send_luna(
    env: &Env,
    info: &MessageInfo,
    amount: u64,
    recipient: &Addr,
    balance: u128,
) -> (r: Result<Response, ContractError>)
    ensures
        outcome(r) == step3_view(
            env.this(),
            info@.sender,
            amount as nat,
            recipient@,
            balance as nat,
        ),
{
    ensure_self(env, info)?;
    if balance < amount as u128 {
        return Err(ContractError::InsufficientBalance);
    }
    Ok(payout(recipient, amount))
}

/// Pays `amount` of the base asset out to the owner at once, without
/// collecting or converting anything first.
pub fn execute_withdraw(state: &State, info: &MessageInfo, amount: i32, balance: u128) -> (r:
    Result<Response, ContractError>)
    ensures
        outcome(r) == withdrawal_view(state@.owner, info@.sender, amount as int, balance as nat),
{
    withdraw(&state.owner, info, amount, balance)
}

/// Undelegation is not implemented: every call is refused.
pub fn try_start_undelegation(info: &MessageInfo, amount: u128) -> (r: Result<
    Response,
    ContractError,
>)
    ensures
        r == Err::<Response, ContractError>(ContractError::NotImplemented),
{
    Err(ContractError::NotImplemented)
}

/// The holdings that are not in the base asset.
pub open spec fn foreign() -> spec_fn(CoinView) -> bool {
    |coin: CoinView| coin.denom != base_denom()
}

/// The denominations to ask the exchange-rate service about: that of every
/// holding that is not in the base asset, in the order of the balance.
pub open spec fn quote_denoms_view(balance: Seq<CoinView>) -> Seq<Seq<char>> {
    let asked = balance.filter(foreign());
    Seq::new(asked.len(), |i: int| asked[i].denom)
}

/// The denominations of `balance` whose rates the second phase needs.
pub fn quote_denoms(balance: &Vec<Coin>) -> (r: Vec<String>)
    ensures
        r.deep_view() == quote_denoms_view(balance.deep_view()),
{
    let base = "uluna".to_owned();
    let mut denoms: Vec<String> = Vec::new();
    let ghost pred = foreign();
    let mut i: usize = 0;
    proof {
        reveal(Seq::filter);
    }
    while i < balance.len()
        invariant
            i <= balance.len(),
            base@ == base_denom(),
            pred == foreign(),
            denoms.deep_view() =~= quote_denoms_view(balance.deep_view().take(i as int)),
        decreases balance.len() - i,
    {
        let coin = &balance[i];
        let ghost seen = balance.deep_view().take(i as int);
        let ghost before = denoms.deep_view();
        proof {
            assert(balance.deep_view().take(i + 1) =~= seen.push(coin@));
            seen.lemma_filter_push(coin@, pred);
        }
        if coin.denom != base {
            denoms.push(coin.denom.clone());
            assert(denoms.deep_view() =~= before.push(coin@.denom));
        }
        i += 1;
    }
    assert(balance.deep_view().take(balance.len() as int) =~= balance.deep_view());
    denoms
}

/// The configuration with which the exchange begins: the caller becomes the
/// owner. Nothing is emitted.
pub fn instantiate(info: &MessageInfo, msg: InstantiateMsg) -> (r: Result<
    (State, Response),
    ContractError,
>)
    ensures
        r matches Ok((state, response)) && state@ == (StateView {
            owner: info@.sender,
            token_address: msg.token_address@,
            oracle_address: msg.oracle_address@,
        }) && response@ == (ResponseView { messages: Seq::empty(), attributes: Seq::empty() }),
{
    let state = State {
        owner: info.sender.clone(),
        token_address: msg.token_address,
        oracle_address: msg.oracle_address,
    };
    Ok((state, Response::new()))
}

/// No query is implemented: every one is refused.
pub fn query(msg: &QueryMsg) -> (r: Result<Vec<u8>, ContractError>)
    ensures
        r == Err::<Vec<u8>, ContractError>(ContractError::NotImplemented),
{
    Err(ContractError::NotImplemented)
}

/// Migration changes nothing and emits nothing.
pub fn migrate() -> (r: Result<Response, ContractError>)
    ensures
        r matches Ok(response) && response@ == (ResponseView {
            messages: Seq::empty(),
            attributes: Seq::empty(),
        }),
{
    Ok(Response::new())
}

/// What the exchange answers to `msg`, by the operation that `msg` names.
/// The third phase is held to what `ledger` has of the base asset.
pub open spec fn executed(
    state: StateView,
    this: Seq<char>,
    info: MessageInfoView,
    msg: ExecuteMsgView,
    ledger: LedgerView,
    r: Result<Response, ContractError>,
) -> bool {
    match msg {
        ExecuteMsgView::Buy => buy_outcome(state, info, ledger.oracle_price, r),
        ExecuteMsgView::Withdraw { amount } => outcome(r) == step1_view(
            state,
            this,
            info.sender,
            amount,
            ledger.delegations,
        ),
        ExecuteMsgView::WithdrawStep2ConvertRewardsToLuna => outcome(r) == step2_view(
            this,
            info.sender,
            ledger.balances,
            ledger.exchange_rates,
        ),
        ExecuteMsgView::WithdrawStep3SendLuna { amount, recipient } => outcome(r) == step3_view(
            this,
            info.sender,
            amount,
            recipient,
            held(ledger.balances, base_denom()),
        ),
        ExecuteMsgView::StartUndelegation { amount } => r == Err::<Response, ContractError>(
            ContractError::NotImplemented,
        ),
    }
}

/// Carries out `msg` against what the host reports in `ledger`.
pub fn execute(state: &State, env: &Env, info: &MessageInfo, msg: ExecuteMsg, ledger: &Ledger) -> (r:
    Result<Response, ContractError>)
    requires
        msg is Buy ==> ledger.oracle_price > 0,
    ensures
        executed(state@, env.this(), info@, msg@, ledger@, r),
{
    match msg {
        ExecuteMsg::Buy {  } => try_buy(state, info, ledger.oracle_price),
        ExecuteMsg::Withdraw { amount } => try_withdraw_step1_collect_rewards(
            state,
            env,
            info,
            amount,
            &ledger.delegations,
        ),
        ExecuteMsg::WithdrawStep2ConvertRewardsToLuna {  } =>
            try_withdraw_step2_convert_all_native_coins_to_luna(
                env,
                info,
                &ledger.balances,
                &ledger.exchange_rates,
            ),
        ExecuteMsg::WithdrawStep3SendLuna { amount, recipient } => try_withdraw_step3_send_luna(
            env,
            info,
            amount,
            &recipient,
            balance_of(&ledger.balances, "uluna"),
        ),
        ExecuteMsg::StartUndelegation { amount } => try_start_undelegation(info, amount),
    }
}

} // verus!

use cosmwasm_std::{from_slice, StdError, Uint128};
use cw20::Cw20ExecuteMsg;
use lemon_swap::error::ContractError;
use lemon_swap::response::{Action, Response};
use lemon_swap::swap2::contract::{
    buy_response, collect_all_rewards, execute, execute_withdraw, instantiate, knows, migrate,
    query, quote_denoms, try_buy, try_start_undelegation, try_withdraw_step1_collect_rewards,
    try_withdraw_step2_convert_all_native_coins_to_luna, try_withdraw_step3_send_luna, VALIDATOR,
};
use lemon_swap::swap2::ledger::{balance_of, Ledger};
use lemon_swap::swap2::msg::{ExecuteMsg, InstantiateMsg, QueryMsg};
use lemon_swap::swap2::state::State;
use lemon_swap::types::{
    Addr, Attribute, Coin, ContractInfo, Delegation, Env, ExchangeRateItem, ExchangeRatesResponse,
    MessageInfo,
};

fn staking_exchange() -> State {
    State {
        owner: Addr::unchecked("owner"),
        token_address: Addr::unchecked("token"),
        oracle_address: Addr::unchecked("oracle"),
    }
}

fn here() -> Env {
    Env { contract: ContractInfo { address: Addr::unchecked("contract") } }
}

fn sent_by(sender: &str, funds: Vec<Coin>) -> MessageInfo {
    MessageInfo { sender: Addr::unchecked(sender), funds }
}

fn delegation_with(validator: &str, amount: u128) -> Delegation {
    Delegation {
        delegator: Addr::unchecked("contract"),
        validator: validator.to_string(),
        amount: Coin::new(amount, "uluna"),
    }
}

fn rates_for(denoms: &[&str]) -> ExchangeRatesResponse {
    ExchangeRatesResponse {
        base_denom: "uluna".to_string(),
        exchange_rates: denoms
            .iter()
            .map(|denom| ExchangeRateItem {
                quote_denom: denom.to_string(),
                exchange_rate: 1_500_000_000_000_000_000,
            })
            .collect(),
    }
}

fn empty_ledger() -> Ledger {
    Ledger {
        oracle_price: 1,
        delegations: Some(vec![]),
        balances: vec![],
        exchange_rates: rates_for(&[]),
    }
}

fn self_call(msg: ExecuteMsg) -> Action {
    Action::SelfCall { contract_addr: "contract".to_string(), msg }
}

fn swap_of(amount: u128, denom: &str) -> Action {
    Action::Swap { offer_coin: Coin::new(amount, denom), ask_denom: "uluna".to_string() }
}

fn log(value: &str) -> Vec<Attribute> {
    vec![Attribute { key: "action".to_string(), value: value.to_string() }]
}

fn transferred(response: &Response) -> Cw20ExecuteMsg {
    match &response.messages[0] {
        Action::Execute { contract_addr, msg, funds } => {
            assert_eq!(contract_addr, "token");
            assert!(funds.is_empty());
            from_slice(msg).unwrap()
        }
        other => panic!("the first action is {:?}", other),
    }
}

#[test]
fn proper_initialization() {
    let msg = InstantiateMsg {
        token_address: Addr::unchecked("terra1hpajld8zs93md8zrs6sfy42zl0khqpmr07muw0"),
        oracle_address: Addr::unchecked("oracle"),
    };
    let info = sent_by("creator", vec![Coin::new(10000000000, "uluna")]);

    let res = instantiate(&info, msg).unwrap();
    assert_eq!(0, res.1.messages.len());

    // nothing can be queried yet: "not implemented"
    let res = query(&QueryMsg::QueryTokenAddress {});
    assert_eq!(res, Err(ContractError::NotImplemented));
}

#[test]
fn swap2_is_instantiated_with_the_caller_as_owner() {
    let msg = InstantiateMsg {
        token_address: Addr::unchecked("token"),
        oracle_address: Addr::unchecked("oracle"),
    };
    let (state, response) = instantiate(&sent_by("owner", vec![]), msg).unwrap();
    assert_eq!(state, staking_exchange());
    assert_eq!(response, Response { messages: vec![], attributes: vec![] });
}

#[test]
fn swap2_buy_transfers_tokens_then_delegates() {
    let info = sent_by("buyer", vec![Coin::new(100, "uluna")]);
    let response = try_buy(&staking_exchange(), &info, 7).unwrap();
    assert_eq!(response.messages.len(), 2);
    assert_eq!(
        transferred(&response),
        Cw20ExecuteMsg::Transfer { recipient: "buyer".to_string(), amount: Uint128::new(14) }
    );
    assert_eq!(
        response.messages[1],
        Action::Delegate { validator: VALIDATOR.to_string(), amount: Coin::new(100, "uluna") }
    );
    assert_eq!(response.attributes, log("buy_lemons"));
}

#[test]
fn swap2_buy_encodes_the_transfer_as_json() {
    let info = sent_by("buyer", vec![Coin::new(100, "uluna")]);
    let response = try_buy(&staking_exchange(), &info, 7).unwrap();
    assert_eq!(
        response.messages[0],
        Action::Execute {
            contract_addr: "token".to_string(),
            msg: br#"{"transfer":{"recipient":"buyer","amount":"14"}}"#.to_vec(),
            funds: vec![],
        }
    );
}

#[test]
fn swap2_buy_never_rounds_up() {
    for (paid, price, owed) in [
        (1u128, 1u64, 1u128),
        (6, 7, 0),
        (7, 7, 1),
        (13, 7, 1),
        (14, 7, 2),
        (1_000_000, 3, 333_333),
        (u128::MAX, 2, u128::MAX / 2),
    ] {
        let info = sent_by("buyer", vec![Coin::new(paid, "uluna")]);
        let response = try_buy(&staking_exchange(), &info, price).unwrap();
        assert_eq!(
            transferred(&response),
            Cw20ExecuteMsg::Transfer { recipient: "buyer".to_string(), amount: Uint128::new(owed) }
        );
        assert!(owed * (price as u128) <= paid);
        assert_eq!(
            response.messages[1],
            Action::Delegate { validator: VALIDATOR.to_string(), amount: Coin::new(paid, "uluna") }
        );
    }
}

#[test]
fn swap2_buy_takes_the_first_payment_among_the_funds() {
    let info = sent_by(
        "buyer",
        vec![
            Coin::new(50, "uusd"),
            Coin::new(0, "uluna"),
            Coin::new(30, "uluna"),
            Coin::new(90, "uluna"),
        ],
    );
    let response = try_buy(&staking_exchange(), &info, 10).unwrap();
    assert_eq!(
        transferred(&response),
        Cw20ExecuteMsg::Transfer { recipient: "buyer".to_string(), amount: Uint128::new(3) }
    );
    assert_eq!(
        response.messages[1],
        Action::Delegate { validator: VALIDATOR.to_string(), amount: Coin::new(30, "uluna") }
    );
}

#[test]
fn swap2_buy_without_collateral_is_refused() {
    let state = staking_exchange();
    assert_eq!(try_buy(&state, &sent_by("buyer", vec![]), 7), Err(ContractError::NoFundsSent));
    assert_eq!(
        try_buy(&state, &sent_by("buyer", vec![Coin::new(0, "uluna")]), 7),
        Err(ContractError::NoFundsSent)
    );
    assert_eq!(
        try_buy(&state, &sent_by("buyer", vec![Coin::new(100, "uusd")]), 7),
        Err(ContractError::NoFundsSent)
    );
}

#[test]
fn swap2_buy_passes_an_encoding_error_on() {
    let failed = buy_response(&staking_exchange(), 100, Err(StdError::generic_err("no encoding")));
    assert_eq!(failed, Err(ContractError::Std(StdError::generic_err("no encoding"))));
}

#[test]
fn swap2_buy_response_carries_the_payload() {
    let response = buy_response(&staking_exchange(), 100, Ok(vec![9, 8])).unwrap();
    assert_eq!(
        response.messages,
        vec![
            Action::Execute { contract_addr: "token".to_string(), msg: vec![9, 8], funds: vec![] },
            Action::Delegate { validator: VALIDATOR.to_string(), amount: Coin::new(100, "uluna") },
        ]
    );
}

#[test]
fn rewards_are_collected_from_every_delegation() {
    let found = Some(vec![
        delegation_with("val-a", 10),
        delegation_with("val-b", 20),
        delegation_with("val-a", 30),
    ]);
    assert_eq!(
        collect_all_rewards(&found),
        Ok(vec![
            Action::WithdrawDelegatorReward { validator: "val-a".to_string() },
            Action::WithdrawDelegatorReward { validator: "val-b".to_string() },
            Action::WithdrawDelegatorReward { validator: "val-a".to_string() },
        ])
    );
}

#[test]
fn no_rewards_without_delegations() {
    assert_eq!(collect_all_rewards(&Some(vec![])), Ok(vec![]));
    assert_eq!(collect_all_rewards(&None), Ok(vec![]));
}

#[test]
fn phase_one_collects_then_calls_itself_twice() {
    let found = Some(vec![delegation_with("val-a", 10), delegation_with("val-b", 20)]);
    let response = try_withdraw_step1_collect_rewards(
        &staking_exchange(),
        &here(),
        &sent_by("owner", vec![]),
        100,
        &found,
    )
    .unwrap();
    assert_eq!(
        response.messages,
        vec![
            Action::WithdrawDelegatorReward { validator: "val-a".to_string() },
            Action::WithdrawDelegatorReward { validator: "val-b".to_string() },
            self_call(ExecuteMsg::WithdrawStep2ConvertRewardsToLuna {}),
            self_call(ExecuteMsg::WithdrawStep3SendLuna {
                amount: 100,
                recipient: Addr::unchecked("owner"),
            }),
        ]
    );
    assert!(response.attributes.is_empty());
}

#[test]
fn phase_one_by_a_stranger_is_refused() {
    let found = Some(vec![delegation_with("val-a", 10)]);
    assert_eq!(
        try_withdraw_step1_collect_rewards(
            &staking_exchange(),
            &here(),
            &sent_by("mallory", vec![]),
            100,
            &found,
        ),
        Err(ContractError::Unauthorized)
    );
}

#[test]
fn phase_one_by_the_contract_itself_is_refused() {
    assert_eq!(
        try_withdraw_step1_collect_rewards(
            &staking_exchange(),
            &here(),
            &sent_by("contract", vec![]),
            100,
            &None,
        ),
        Err(ContractError::Unauthorized)
    );
}

#[test]
fn phase_two_by_anyone_but_the_contract_is_refused() {
    let balance = vec![Coin::new(5, "uusd")];
    for sender in ["owner", "mallory", "token", ""] {
        assert_eq!(
            try_withdraw_step2_convert_all_native_coins_to_luna(
                &here(),
                &sent_by(sender, vec![]),
                &balance,
                &rates_for(&["uusd"]),
            ),
            Err(ContractError::Unauthorized)
        );
    }
}

#[test]
fn phase_two_converts_only_the_known_foreign_asset() {
    let balance = vec![Coin::new(500, "uluna"), Coin::new(70, "uusd"), Coin::new(3, "dust")];
    let response = try_withdraw_step2_convert_all_native_coins_to_luna(
        &here(),
        &sent_by("contract", vec![]),
        &balance,
        &rates_for(&["uusd"]),
    )
    .unwrap();
    assert_eq!(response.messages, vec![swap_of(70, "uusd")]);
    assert_eq!(response.attributes, log("swap"));
}

#[test]
fn phase_two_never_converts_the_base_asset() {
    let balance = vec![Coin::new(500, "uluna")];
    let response = try_withdraw_step2_convert_all_native_coins_to_luna(
        &here(),
        &sent_by("contract", vec![]),
        &balance,
        &rates_for(&["uluna", "uusd"]),
    )
    .unwrap();
    assert!(response.messages.is_empty());
}

#[test]
fn phase_two_keeps_the_order_of_the_balance() {
    let balance = vec![
        Coin::new(1, "ukrw"),
        Coin::new(2, "uluna"),
        Coin::new(3, "usdr"),
        Coin::new(4, "dust"),
        Coin::new(5, "uusd"),
    ];
    let response = try_withdraw_step2_convert_all_native_coins_to_luna(
        &here(),
        &sent_by("contract", vec![]),
        &balance,
        &rates_for(&["uusd", "usdr", "ukrw", "umnt"]),
    )
    .unwrap();
    assert_eq!(response.messages, vec![swap_of(1, "ukrw"), swap_of(3, "usdr"), swap_of(5, "uusd")]);
}

#[test]
fn phase_two_with_nothing_held_emits_nothing() {
    let response = try_withdraw_step2_convert_all_native_coins_to_luna(
        &here(),
        &sent_by("contract", vec![]),
        &vec![],
        &rates_for(&[]),
    )
    .unwrap();
    assert!(response.messages.is_empty());
    assert_eq!(response.attributes, log("swap"));
}

#[test]
fn rates_are_asked_for_the_foreign_denominations() {
    let balance = vec![
        Coin::new(1, "ukrw"),
        Coin::new(2, "uluna"),
        Coin::new(4, "dust"),
        Coin::new(0, "uusd"),
    ];
    assert_eq!(quote_denoms(&balance), vec!["ukrw".to_string(), "dust".to_string(), "uusd".to_string()]);
    assert!(quote_denoms(&vec![Coin::new(2, "uluna")]).is_empty());
    assert!(quote_denoms(&vec![]).is_empty());
}

#[test]
fn a_rate_is_known_only_if_reported() {
    let rates = rates_for(&["uusd", "ukrw"]);
    assert!(knows(&rates, &"uusd".to_string()));
    assert!(knows(&rates, &"ukrw".to_string()));
    assert!(!knows(&rates, &"dust".to_string()));
    assert!(!knows(&rates_for(&[]), &"uusd".to_string()));
}

#[test]
fn phase_three_pays_the_beneficiary() {
    let response = try_withdraw_step3_send_luna(
        &here(),
        &sent_by("contract", vec![]),
        100,
        &Addr::unchecked("owner"),
        100,
    )
    .unwrap();
    assert_eq!(
        response,
        Response {
            messages: vec![Action::Send {
                to_address: "owner".to_string(),
                amount: vec![Coin::new(100, "uluna")],
            }],
            attributes: log("withdraw_luna"),
        }
    );
}

#[test]
fn phase_three_beyond_the_balance_is_refused() {
    assert_eq!(
        try_withdraw_step3_send_luna(
            &here(),
            &sent_by("contract", vec![]),
            101,
            &Addr::unchecked("owner"),
            100,
        ),
        Err(ContractError::InsufficientBalance)
    );
    assert_eq!(
        try_withdraw_step3_send_luna(
            &here(),
            &sent_by("contract", vec![]),
            u64::MAX,
            &Addr::unchecked("owner"),
            u64::MAX as u128 - 1,
        ),
        Err(ContractError::InsufficientBalance)
    );
}

#[test]
fn phase_three_by_anyone_but_the_contract_is_refused() {
    for sender in ["owner", "mallory"] {
        assert_eq!(
            try_withdraw_step3_send_luna(
                &here(),
                &sent_by(sender, vec![]),
                1,
                &Addr::unchecked(sender),
                1000,
            ),
            Err(ContractError::Unauthorized)
        );
    }
}

#[test]
fn swap2_direct_withdraw_follows_the_same_rules() {
    let state = staking_exchange();
    assert_eq!(
        execute_withdraw(&state, &sent_by("mallory", vec![]), 10, 100),
        Err(ContractError::Unauthorized)
    );
    assert_eq!(
        execute_withdraw(&state, &sent_by("owner", vec![]), 0, 100),
        Err(ContractError::InvalidAmount)
    );
    assert_eq!(
        execute_withdraw(&state, &sent_by("owner", vec![]), 101, 100),
        Err(ContractError::InsufficientBalance)
    );
    let response = execute_withdraw(&state, &sent_by("owner", vec![]), 100, 100).unwrap();
    assert_eq!(
        response.messages,
        vec![Action::Send {
            to_address: "owner".to_string(),
            amount: vec![Coin::new(100, "uluna")],
        }]
    );
}

#[test]
fn undelegation_is_not_implemented() {
    for (sender, amount) in [("owner", 0u128), ("owner", 1), ("mallory", 5), ("contract", u128::MAX)] {
        assert_eq!(
            try_start_undelegation(&sent_by(sender, vec![]), amount),
            Err(ContractError::NotImplemented)
        );
    }
    assert_eq!(
        execute(
            &staking_exchange(),
            &here(),
            &sent_by("owner", vec![Coin::new(5, "uluna")]),
            ExecuteMsg::StartUndelegation { amount: 5 },
            &empty_ledger(),
        ),
        Err(ContractError::NotImplemented)
    );
}

#[test]
fn swap2_query_and_migrate() {
    assert_eq!(query(&QueryMsg::QueryTokenAddress {}), Err(ContractError::NotImplemented));
    assert_eq!(migrate(), Ok(Response { messages: vec![], attributes: vec![] }));
}

#[test]
fn the_balance_of_a_denomination_is_read_from_the_snapshot() {
    let balances = vec![Coin::new(70, "uusd"), Coin::new(500, "uluna")];
    assert_eq!(balance_of(&balances, "uluna"), 500);
    assert_eq!(balance_of(&balances, "uusd"), 70);
    assert_eq!(balance_of(&balances, "dust"), 0);
    assert_eq!(balance_of(&vec![], "uluna"), 0);
}

#[test]
fn swap2_execute_dispatches_by_message() {
    let state = staking_exchange();
    let ledger = Ledger {
        oracle_price: 4,
        delegations: Some(vec![delegation_with("val-a", 10)]),
        balances: vec![Coin::new(50, "uluna"), Coin::new(8, "uusd")],
        exchange_rates: rates_for(&["uusd"]),
    };
    let buy = execute(
        &state,
        &here(),
        &sent_by("buyer", vec![Coin::new(10, "uluna")]),
        ExecuteMsg::Buy {},
        &ledger,
    )
    .unwrap();
    assert_eq!(
        transferred(&buy),
        Cw20ExecuteMsg::Transfer { recipient: "buyer".to_string(), amount: Uint128::new(2) }
    );
    let begun = execute(
        &state,
        &here(),
        &sent_by("owner", vec![]),
        ExecuteMsg::Withdraw { amount: 50 },
        &ledger,
    )
    .unwrap();
    assert_eq!(begun.messages.len(), 3);
    let converted = execute(
        &state,
        &here(),
        &sent_by("contract", vec![]),
        ExecuteMsg::WithdrawStep2ConvertRewardsToLuna {},
        &ledger,
    )
    .unwrap();
    assert_eq!(converted.messages, vec![swap_of(8, "uusd")]);
    let paid = execute(
        &state,
        &here(),
        &sent_by("contract", vec![]),
        ExecuteMsg::WithdrawStep3SendLuna { amount: 50, recipient: Addr::unchecked("owner") },
        &ledger,
    )
    .unwrap();
    assert_eq!(
        paid.messages,
        vec![Action::Send { to_address: "owner".to_string(), amount: vec![Coin::new(50, "uluna")] }]
    );
    assert_eq!(
        execute(
            &state,
            &here(),
            &sent_by("contract", vec![]),
            ExecuteMsg::WithdrawStep3SendLuna { amount: 51, recipient: Addr::unchecked("owner") },
            &ledger,
        ),
        Err(ContractError::InsufficientBalance)
    );
}

/// Plays the host for one atomic unit: the self-calls of `response` are
/// delivered in order, each against the ledger of its phase; the first
/// failure fails the unit.
fn deliver(state: &State, response: Response, ledgers: &[Ledger]) -> Result<Vec<Action>, ContractError> {
    let mut done = vec![];
    let mut phase = 0;
    for action in response.messages {
        match action {
            Action::SelfCall { contract_addr, msg } => {
                assert_eq!(contract_addr, "contract");
                let answer =
                    execute(state, &here(), &sent_by("contract", vec![]), msg, &ledgers[phase])?;
                phase += 1;
                done.extend(answer.messages);
            }
            other => done.push(other),
        }
    }
    Ok(done)
}

#[test]
fn withdrawal_from_an_empty_contract_fails_in_the_last_phase() {
    let state = staking_exchange();
    let begun = execute(
        &state,
        &here(),
        &sent_by("owner", vec![]),
        ExecuteMsg::Withdraw { amount: 100 },
        &empty_ledger(),
    )
    .unwrap();
    assert_eq!(
        begun.messages,
        vec![
            self_call(ExecuteMsg::WithdrawStep2ConvertRewardsToLuna {}),
            self_call(ExecuteMsg::WithdrawStep3SendLuna {
                amount: 100,
                recipient: Addr::unchecked("owner"),
            }),
        ]
    );

    let converted = execute(
        &state,
        &here(),
        &sent_by("contract", vec![]),
        ExecuteMsg::WithdrawStep2ConvertRewardsToLuna {},
        &empty_ledger(),
    )
    .unwrap();
    assert!(converted.messages.is_empty());

    assert_eq!(
        execute(
            &state,
            &here(),
            &sent_by("contract", vec![]),
            ExecuteMsg::WithdrawStep3SendLuna { amount: 100, recipient: Addr::unchecked("owner") },
            &empty_ledger(),
        ),
        Err(ContractError::InsufficientBalance)
    );

    assert_eq!(
        deliver(&state, begun, &[empty_ledger(), empty_ledger()]),
        Err(ContractError::InsufficientBalance)
    );
}

#[test]
fn withdrawal_runs_through_all_three_phases() {
    let state = staking_exchange();
    let staked = Ledger {
        oracle_price: 1,
        delegations: Some(vec![delegation_with("val-a", 1000)]),
        balances: vec![Coin::new(90, "uluna")],
        exchange_rates: rates_for(&[]),
    };
    let rewarded = Ledger {
        oracle_price: 1,
        delegations: Some(vec![delegation_with("val-a", 1000)]),
        balances: vec![Coin::new(95, "uluna"), Coin::new(40, "uusd"), Coin::new(2, "dust")],
        exchange_rates: rates_for(&["uusd"]),
    };
    let converted = Ledger {
        oracle_price: 1,
        delegations: Some(vec![delegation_with("val-a", 1000)]),
        balances: vec![Coin::new(120, "uluna"), Coin::new(2, "dust")],
        exchange_rates: rates_for(&[]),
    };
    let begun = execute(
        &state,
        &here(),
        &sent_by("owner", vec![]),
        ExecuteMsg::Withdraw { amount: 100 },
        &staked,
    )
    .unwrap();
    assert_eq!(
        deliver(&state, begun, &[rewarded, converted]),
        Ok(vec![
            Action::WithdrawDelegatorReward { validator: "val-a".to_string() },
            swap_of(40, "uusd"),
            Action::Send { to_address: "owner".to_string(), amount: vec![Coin::new(100, "uluna")] },
        ])
    );
}

//! Identities, coins and the per-invocation context handed in by the host.

use vstd::prelude::*;

verus! {

/// An account or contract identity on the ledger.
#[derive(Debug)]
pub struct Addr {
    pub address: String,
}

impl View for Addr {
    type V = Seq<char>;

    open spec fn view(&self) -> Seq<char> {
        self.address@
    }
}

impl DeepView for Addr {
    type V = Seq<char>;

    open spec fn deep_view(&self) -> Seq<char> {
        self@
    }
}

impl Addr {
    /// Wraps `input` as an identity without validating it.
    pub fn unchecked(input: &str) -> (r: Addr)
        ensures
            r@ == input@,
    {
        Addr { address: input.to_owned() }
    }

    /// The identity as it is written.
    pub fn as_str(&self) -> (r: &str)
        ensures
            r@ == self@,
    {
        self.address.as_str()
    }

    /// The identity as an owned string, as it is written into an action.
    pub fn to_string(&self) -> (r: String)
        ensures
            r@ == self@,
    {
        self.address.clone()
    }
}

impl Clone for Addr {
    fn clone(&self) -> (r: Addr)
        ensures
            r@ == self@,
    {
        Addr { address: self.address.clone() }
    }
}

impl PartialEq for Addr {
    fn eq(&self, other: &Addr) -> (r: bool) {
        self.address == other.address
    }
}

impl vstd::std_specs::cmp::PartialEqSpecImpl for Addr {
    open spec fn obeys_eq_spec() -> bool {
        true
    }

    open spec fn eq_spec(&self, other: &Addr) -> bool {
        self@ == other@
    }
}

/// An amount of one native asset.
#[derive(Debug, PartialEq)]
pub struct Coin {
    pub denom: String,
    pub amount: u128,
}

/// What a [`Coin`] stands for: a denomination and a natural number.
pub struct CoinView {
    pub denom: Seq<char>,
    pub amount: nat,
}

impl View for Coin {
    type V = CoinView;

    open spec fn view(&self) -> CoinView {
        CoinView { denom: self.denom@, amount: self.amount as nat }
    }
}

impl DeepView for Coin {
    type V = CoinView;

    open spec fn deep_view(&self) -> CoinView {
        self@
    }
}

impl Coin {
    /// `amount` of the asset `denom`.
    pub fn new(amount: u128, denom: &str) -> (r: Coin)
        ensures
            r@ == (CoinView { denom: denom@, amount: amount as nat }),
    {
        Coin { denom: denom.to_owned(), amount }
    }
}

impl Clone for Coin {
    fn clone(&self) -> (r: Coin)
        ensures
            r@ == self@,
    {
        Coin { denom: self.denom.clone(), amount: self.amount }
    }
}

/// The contract's own place on the ledger.
#[derive(Debug, PartialEq)]
pub struct ContractInfo {
    pub address: Addr,
}

/// What the host tells an invocation about where it runs.
#[derive(Debug, PartialEq)]
pub struct Env {
    pub contract: ContractInfo,
}

impl Env {
    /// The identity of the contract that is being invoked.
    pub open spec fn this(&self) -> Seq<char> {
        self.contract.address@
    }
}

/// Who invoked the contract, and the funds that came with the call.
#[derive(Debug, PartialEq)]
pub struct MessageInfo {
    pub sender: Addr,
    pub funds: Vec<Coin>,
}

/// What a [`MessageInfo`] stands for.
pub struct MessageInfoView {
    pub sender: Seq<char>,
    pub funds: Seq<CoinView>,
}

impl View for MessageInfo {
    type V = MessageInfoView;

    open spec fn view(&self) -> MessageInfoView {
        MessageInfoView { sender: self.sender@, funds: self.funds.deep_view() }
    }
}

/// One staking relationship between a delegator and a validator.
#[derive(Debug, PartialEq)]
pub struct Delegation {
    pub delegator: Addr,
    pub validator: String,
    pub amount: Coin,
}

/// What a [`Delegation`] stands for.
pub struct DelegationView {
    pub delegator: Seq<char>,
    pub validator: Seq<char>,
    pub amount: CoinView,
}

impl View for Delegation {
    type V = DelegationView;

    open spec fn view(&self) -> DelegationView {
        DelegationView {
            delegator: self.delegator@,
            validator: self.validator@,
            amount: self.amount@,
        }
    }
}

impl DeepView for Delegation {
    type V = DelegationView;

    open spec fn deep_view(&self) -> DelegationView {
        self@
    }
}

/// One rate reported by the exchange-rate service: `quote_denom` can be
/// converted, at `exchange_rate` (a fixed-point number with 18 fractional
/// digits), into the base denomination of the response.
#[derive(Debug, PartialEq)]
pub struct ExchangeRateItem {
    pub quote_denom: String,
    pub exchange_rate: u128,
}

/// What an [`ExchangeRateItem`] stands for.
pub struct ExchangeRateItemView {
    pub quote_denom: Seq<char>,
    pub exchange_rate: nat,
}

impl View for ExchangeRateItem {
    type V = ExchangeRateItemView;

    open spec fn view(&self) -> ExchangeRateItemView {
        ExchangeRateItemView {
            quote_denom: self.quote_denom@,
            exchange_rate: self.exchange_rate as nat,
        }
    }
}

impl DeepView for ExchangeRateItem {
    type V = ExchangeRateItemView;

    open spec fn deep_view(&self) -> ExchangeRateItemView {
        self@
    }
}

/// The answer of the exchange-rate service. Only denominations that can be
/// converted into `base_denom` appear in it.
#[derive(Debug, PartialEq)]
pub struct ExchangeRatesResponse {
    pub base_denom: String,
    pub exchange_rates: Vec<ExchangeRateItem>,
}

/// What an [`ExchangeRatesResponse`] stands for.
pub struct ExchangeRatesResponseView {
    pub base_denom: Seq<char>,
    pub exchange_rates: Seq<ExchangeRateItemView>,
}

impl View for ExchangeRatesResponse {
    type V = ExchangeRatesResponseView;

    open spec fn view(&self) -> ExchangeRatesResponseView {
        ExchangeRatesResponseView {
            base_denom: self.base_denom@,
            exchange_rates: self.exchange_rates.deep_view(),
        }
    }
}

/// A key and a value that an invocation logs with its response.
#[derive(Debug, PartialEq)]
pub struct Attribute {
    pub key: String,
    pub value: String,
}

/// What an [`Attribute`] stands for.
pub struct AttributeView {
    pub key: Seq<char>,
    pub value: Seq<char>,
}

impl View for Attribute {
    type V = AttributeView;

    open spec fn view(&self) -> AttributeView {
        AttributeView { key: self.key@, value: self.value@ }
    }
}

impl DeepView for Attribute {
    type V = AttributeView;

    open spec fn deep_view(&self) -> AttributeView {
        self@
    }
}

/// An attribute with the given key and value.
pub fn attr(key: &str, value: &str) -> (r: Attribute)
    ensures
        r@ == (AttributeView { key: key@, value: value@ }),
{
    Attribute { key: key.to_owned(), value: value.to_owned() }
}

/// The denomination in which collateral is paid and withdrawals are settled.
pub open spec fn base_denom() -> Seq<char> {
    "uluna"@
}

} // verus!

//! What the host answers to the queries of one invocation.

use vstd::prelude::*;
use crate::funds::{find_payment, first_payment, is_first_payment, lemma_first_payment_unique};
use crate::types::{
    Coin, CoinView, Delegation, DelegationView, ExchangeRatesResponse, ExchangeRatesResponseView,
};

verus! {

/// The answers of the outside modules as of one invocation. They are read
/// afresh for each phase of a pipeline: what an earlier phase emitted has
/// taken effect by the time the next one runs.
#[derive(Debug, PartialEq)]
pub struct Ledger {
    /// The price that the oracle reports, in collateral per token.
    pub oracle_price: u64,
    /// The delegations of the contract, or `None` where the staking module
    /// gave no answer.
    pub delegations: Option<Vec<Delegation>>,
    /// The complete balance of the contract.
    pub balances: Vec<Coin>,
    /// The rates that the exchange-rate service reports for the
    /// denominations in `balances`.
    pub exchange_rates: ExchangeRatesResponse,
}

/// What a [`Ledger`] stands for.
pub struct LedgerView {
    pub oracle_price: nat,
    pub delegations: Option<Seq<DelegationView>>,
    pub balances: Seq<CoinView>,
    pub exchange_rates: ExchangeRatesResponseView,
}

impl View for Ledger {
    type V = LedgerView;

    open spec fn view(&self) -> LedgerView {
        LedgerView {
            oracle_price: self.oracle_price as nat,
            delegations: self.delegations.deep_view(),
            balances: self.balances.deep_view(),
            exchange_rates: self.exchange_rates@,
        }
    }
}

/// How much of `denom` a balance holds: the amount of its first non-empty
/// coin of that denomination, and nothing where it has none.
pub open spec fn held(balances: Seq<CoinView>, denom: Seq<char>) -> nat {
    match first_payment(balances, denom) {
        Some(coin) => coin.amount,
        None => 0,
    }
}

/// How much of `denom` the balance holds.
pub fn balance_of(balances: &Vec<Coin>, denom: &str) -> (r: u128)
    ensures
        r == held(balances.deep_view(), denom@),
{
    match find_payment(balances, denom) {
        Some(i) => {
            proof {
                let found = choose|k: int| is_first_payment(balances.deep_view(), denom@, k);
                lemma_first_payment_unique(balances.deep_view(), denom@, i as int, found);
            }
            balances[i].amount
        },
        None => 0,
    }
}

} // verus!

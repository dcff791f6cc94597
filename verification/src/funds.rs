//! The collateral that comes with a call.

use vstd::prelude::*;
use crate::error::ContractError;
use crate::types::{base_denom, Coin, CoinView, MessageInfo};

verus! {

/// A coin counts as a payment in `denom` if it is of that denomination and
/// not empty.
pub open spec fn is_payment(coin: CoinView, denom: Seq<char>) -> bool {
    coin.denom == denom && coin.amount > 0
}

/// `i` is the place of the first payment in `denom` among `funds`.
pub open spec fn is_first_payment(funds: Seq<CoinView>, denom: Seq<char>, i: int) -> bool {
    &&& 0 <= i < funds.len()
    &&& is_payment(funds[i], denom)
    &&& forall|j: int| 0 <= j < i ==> !is_payment(#[trigger] funds[j], denom)
}

/// The first payment in `denom` among `funds`, if there is one.
pub open spec fn first_payment(funds: Seq<CoinView>, denom: Seq<char>) -> Option<CoinView> {
    if exists|i: int| is_first_payment(funds, denom, i) {
        Some(funds[choose|i: int| is_first_payment(funds, denom, i)])
    } else {
        None
    }
}

/// There is at most one first payment.
pub proof fn lemma_first_payment_unique(funds: Seq<CoinView>, denom: Seq<char>, i: int, j: int)
    requires
        is_first_payment(funds, denom, i),
        is_first_payment(funds, denom, j),
    ensures
        i == j,
{
}

/// There is no first payment exactly where nothing among `funds` is a
/// payment; and a first payment is a payment, and one of `funds`.
pub proof fn lemma_first_payment_exists(funds: Seq<CoinView>, denom: Seq<char>)
    ensures
        first_payment(funds, denom) is None <==> forall|i: int|
            0 <= i < funds.len() ==> !is_payment(#[trigger] funds[i], denom),
        first_payment(funds, denom) matches Some(coin) ==> is_payment(coin, denom)
            && funds.contains(coin),
{
    if !exists|i: int| is_first_payment(funds, denom, i) {
        assert forall|i: int| 0 <= i < funds.len() implies !is_payment(
            #[trigger] funds[i],
            denom,
        ) by {
            lemma_none_before(funds, denom, i);
        }
    }
}

/// Where nothing is a first payment, nothing up to `i` is a payment at all.
proof fn lemma_none_before(funds: Seq<CoinView>, denom: Seq<char>, i: int)
    requires
        0 <= i < funds.len(),
        forall|k: int| !is_first_payment(funds, denom, k),
    ensures
        forall|j: int| 0 <= j <= i ==> !is_payment(#[trigger] funds[j], denom),
    decreases i,
{
    if i > 0 {
        lemma_none_before(funds, denom, i - 1);
    }
    assert(!is_first_payment(funds, denom, i));
}

/// The place of the first coin among `funds` that pays in `denom`.
pub fn find_payment(funds: &Vec<Coin>, denom: &str) -> (r: Option<usize>)
    ensures
        match r {
            Some(i) => is_first_payment(funds.deep_view(), denom@, i as int),
            None => first_payment(funds.deep_view(), denom@) is None,
        },
{
    let wanted = denom.to_owned();
    let mut i: usize = 0;
    while i < funds.len()
        invariant
            i <= funds.len(),
            wanted@ == denom@,
            forall|j: int| 0 <= j < i ==> !is_payment(#[trigger] funds.deep_view()[j], denom@),
        decreases funds.len() - i,
    {
        if funds[i].denom == wanted && funds[i].amount > 0 {
            return Some(i);
        }
        i += 1;
    }
    proof {
        lemma_first_payment_exists(funds.deep_view(), denom@);
    }
    None
}

/// The collateral paid with a call: the amount of the first non-empty coin
/// of the base denomination among the funds. A call without one is refused.
pub open spec fn collateral(funds: Seq<CoinView>) -> Result<nat, ContractError> {
    match first_payment(funds, base_denom()) {
        Some(coin) => Ok(coin.amount),
        None => Err(ContractError::NoFundsSent),
    }
}

/// The collateral that came with the call, or `NoFundsSent`.
pub fn luna_payment(info: &MessageInfo) -> (r: Result<u128, ContractError>)
    ensures
        match r {
            Ok(amount) => collateral(info@.funds) == Ok::<nat, ContractError>(amount as nat),
            Err(e) => collateral(info@.funds) == Err::<nat, ContractError>(e),
        },
{
    match find_payment(&info.funds, "uluna") {
        Some(i) => {
            proof {
                let found = choose|k: int| is_first_payment(info@.funds, base_denom(), k);
                lemma_first_payment_unique(info@.funds, base_denom(), i as int, found);
            }
            Ok(info.funds[i].amount)
        },
        None => Err(ContractError::NoFundsSent),
    }
}

} // verus!

//! Payments of the base asset out of the contract's balance.

use vstd::prelude::*;
use crate::auth::ensure_owner;
use crate::error::ContractError;
use crate::response::{action_attr, outcome, Action, ActionView, Response, ResponseView};
use crate::types::{attr, base_denom, Addr, Coin, CoinView, MessageInfo};

verus! {

/// The payment of `amount` of the base asset to `to`, logged as a
/// withdrawal.
pub open spec fn payout_view(to: Seq<char>, amount: nat) -> ResponseView {
    ResponseView {
        messages: seq![
            ActionView::Send {
                to_address: to,
                amount: seq![CoinView { denom: base_denom(), amount }],
            },
        ],
        attributes: action_attr("withdraw_luna"@),
    }
}

/// The response that pays `amount` of the base asset to `to`.
pub fn payout(to: &Addr, amount: u64) -> (r: Response)
    ensures
        r@ == payout_view(to@, amount as nat),
{
    let mut coins: Vec<Coin> = Vec::new();
    coins.push(Coin::new(amount as u128, "uluna"));
    assert(coins.deep_view() =~= seq![CoinView { denom: base_denom(), amount: amount as nat }]);
    let send = Action::Send { to_address: to.to_string(), amount: coins };
    Response::new().add_attribute(attr("action", "withdraw_luna")).add_message(send)
}

/// What the owner may ask for: only `owner` may withdraw, and only a
/// positive amount.
pub open spec fn withdrawal_request(owner: Seq<char>, sender: Seq<char>, amount: int) -> Result<
    nat,
    ContractError,
> {
    if sender != owner {
        Err(ContractError::Unauthorized)
    } else if amount <= 0 {
        Err(ContractError::InvalidAmount)
    } else {
        Ok(amount as nat)
    }
}

/// A withdrawal by the owner: a request that is in order is met if the
/// contract holds as much, and the payment goes to the owner.
pub open spec fn withdrawal_view(owner: Seq<char>, sender: Seq<char>, amount: int, balance: nat)
    -> Result<ResponseView, ContractError> {
    match withdrawal_request(owner, sender, amount) {
        Ok(wanted) => if balance < wanted {
            Err(ContractError::InsufficientBalance)
        } else {
            Ok(payout_view(sender, wanted))
        },
        Err(e) => Err(e),
    }
}

/// Checks a request to withdraw `amount` before any balance is read, and
/// gives the amount asked for.
pub fn check_withdrawal(owner: &Addr, info: &MessageInfo, amount: i32) -> (r: Result<
    u64,
    ContractError,
>)
    ensures
        match r {
            Ok(wanted) => withdrawal_request(owner@, info@.sender, amount as int) == Ok::<
                nat,
                ContractError,
            >(wanted as nat),
            Err(e) => withdrawal_request(owner@, info@.sender, amount as int) == Err::<
                nat,
                ContractError,
            >(e),
        },
{
    ensure_owner(owner, info)?;
    if amount <= 0i32 {
        return Err(ContractError::InvalidAmount);
    }
    Ok(amount as u64)
}

/// Pays `amount` of the base asset out to the owner, if `balance`, which is
/// what the contract holds of it, suffices.
pub fn withdraw(owner: &Addr, info: &MessageInfo, amount: i32, balance: u128) -> (r: Result<
    Response,
    ContractError,
>)
    ensures
        outcome(r) == withdrawal_view(owner@, info@.sender, amount as int, balance as nat),
{
    let wanted = check_withdrawal(owner, info, amount)?;
    if balance < wanted as u128 {
        return Err(ContractError::InsufficientBalance);
    }
    Ok(payout(&info.sender, wanted))
}

} // verus!

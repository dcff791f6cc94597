//! What holds of the withdrawal pipeline as a whole.
//!
//! A withdrawal runs as three invocations within one atomic unit. The owner
//! begins it; the contract calls itself for the second and the third phase.
//! Nobody else can enter in the middle, and a failure in any phase undoes
//! all of them.

use vstd::prelude::*;
use crate::error::ContractError;
use crate::response::{ActionView, ResponseView};
use crate::swap2::contract::{
    conversions, convertible, is_convertible, known_denoms, reward_actions, step1_view,
    step2_view, step3_view, swap_action,
};
use crate::swap2::ledger::{held, LedgerView};
use crate::swap2::msg::ExecuteMsgView;
use crate::swap2::state::StateView;
use crate::types::{base_denom, CoinView, DelegationView, ExchangeRatesResponseView};
use crate::withdrawal::payout_view;

verus! {

/// Whoever is not the owner cannot begin a withdrawal: the first phase
/// refuses with `Unauthorized`, and so emits nothing.
pub proof fn lemma_only_owner_begins(
    state: StateView,
    this: Seq<char>,
    sender: Seq<char>,
    amount: nat,
    delegations: Option<Seq<DelegationView>>,
)
    requires
        sender != state.owner,
    ensures
        step1_view(state, this, sender, amount, delegations) == Err::<ResponseView, ContractError>(
            ContractError::Unauthorized,
        ),
{
}

/// The first phase, begun by the owner, emits one collection per
/// delegation and then exactly the two self-calls, the second phase before
/// the third.
pub proof fn lemma_first_phase_chains(
    state: StateView,
    this: Seq<char>,
    amount: nat,
    delegations: Option<Seq<DelegationView>>,
)
    ensures
        step1_view(state, this, state.owner, amount, delegations) matches Ok(response) && {
            let n = reward_actions(delegations).len() as int;
            &&& response.messages.len() == n + 2
            &&& n == match delegations {
                Some(found) => found.len(),
                None => 0,
            }
            &&& forall|i: int| 0 <= i < n ==> response.messages[i] is WithdrawDelegatorReward
            &&& response.messages[n] == ActionView::SelfCall {
                contract_addr: this,
                msg: ExecuteMsgView::WithdrawStep2ConvertRewardsToLuna,
            }
            &&& response.messages[n + 1] == ActionView::SelfCall {
                contract_addr: this,
                msg: ExecuteMsgView::WithdrawStep3SendLuna { amount, recipient: state.owner },
            }
        },
{
}

/// Nobody but the contract itself can ask for the second or the third
/// phase: both refuse any other caller with `Unauthorized`.
pub proof fn lemma_later_phases_are_closed(
    this: Seq<char>,
    sender: Seq<char>,
    balance: Seq<CoinView>,
    rates: ExchangeRatesResponseView,
    amount: nat,
    recipient: Seq<char>,
    held: nat,
)
    requires
        sender != this,
    ensures
        step2_view(this, sender, balance, rates) == Err::<ResponseView, ContractError>(
            ContractError::Unauthorized,
        ),
        step3_view(this, sender, amount, recipient, held) == Err::<ResponseView, ContractError>(
            ContractError::Unauthorized,
        ),
{
}

/// The self-calls of the first phase are accepted when the host delivers
/// them: called by the contract itself, the second phase succeeds, and the
/// third pays the amount asked for to whoever began the withdrawal, or fails
/// with `InsufficientBalance`.
pub proof fn lemma_self_calls_are_accepted(
    this: Seq<char>,
    balance: Seq<CoinView>,
    rates: ExchangeRatesResponseView,
    amount: nat,
    recipient: Seq<char>,
    held: nat,
)
    ensures
        step2_view(this, this, balance, rates) is Ok,
        step3_view(this, this, amount, recipient, held) == if held < amount {
            Err::<ResponseView, ContractError>(ContractError::InsufficientBalance)
        } else {
            Ok::<ResponseView, ContractError>(payout_view(recipient, amount))
        },
{
}

/// The third phase pays nothing out of a balance smaller than the amount
/// asked for.
pub proof fn lemma_no_payment_beyond_balance(
    this: Seq<char>,
    amount: nat,
    recipient: Seq<char>,
    held: nat,
)
    requires
        amount > held,
    ensures
        step3_view(this, this, amount, recipient, held) == Err::<ResponseView, ContractError>(
            ContractError::InsufficientBalance,
        ),
{
}

/// Every exchange that the second phase emits offers a whole convertible
/// holding for the base asset, and every convertible holding is offered.
pub proof fn lemma_conversions_are_the_convertible(
    balance: Seq<CoinView>,
    rates: ExchangeRatesResponseView,
)
    ensures
        conversions(balance, rates).len() <= balance.len(),
        forall|i: int|
            0 <= i < conversions(balance, rates).len() ==> (#[trigger] conversions(
                balance,
                rates,
            )[i] matches ActionView::Swap { offer_coin, ask_denom } && ask_denom == base_denom()
                && is_convertible(offer_coin, rates) && balance.contains(offer_coin)),
        forall|j: int|
            0 <= j < balance.len() && is_convertible(#[trigger] balance[j], rates) ==> conversions(
                balance,
                rates,
            ).contains(swap_action(balance[j])),
{
    let pred = convertible(rates);
    let offered = balance.filter(pred);
    let swaps = conversions(balance, rates);
    balance.lemma_filter_len(pred);
    assert forall|i: int| 0 <= i < swaps.len() implies (#[trigger] swaps[i] matches ActionView::Swap {
        offer_coin,
        ask_denom,
    } && ask_denom == base_denom() && is_convertible(offer_coin, rates) && balance.contains(
        offer_coin,
    )) by {
        balance.lemma_filter_pred(pred, i);
        balance.lemma_filter_contains_rev(pred, offered[i]);
    }
    assert forall|j: int|
        0 <= j < balance.len() && is_convertible(#[trigger] balance[j], rates) implies swaps.contains(
        swap_action(balance[j]),
    ) by {
        balance.lemma_filter_contains(pred, j);
        let k = choose|k: int| 0 <= k < offered.len() && offered[k] == balance[j];
        assert(swaps[k] == swap_action(balance[j]));
    }
}

/// Of three holdings, one in the base asset, one with a known rate and one
/// without, in whatever order, the second phase exchanges only the second.
pub proof fn lemma_only_the_known_is_exchanged(
    this: Seq<char>,
    balance: Seq<CoinView>,
    rates: ExchangeRatesResponseView,
    base: int,
    known: int,
    unknown: int,
)
    requires
        balance.len() == 3,
        0 <= base < 3,
        0 <= known < 3,
        0 <= unknown < 3,
        base != known,
        known != unknown,
        base != unknown,
        balance[base].denom == base_denom(),
        balance[known].denom != base_denom(),
        known_denoms(rates).contains(balance[known].denom),
        !known_denoms(rates).contains(balance[unknown].denom),
    ensures
        conversions(balance, rates) == seq![swap_action(balance[known])],
        step2_view(this, this, balance, rates) matches Ok(response) && response.messages == seq![
            ActionView::Swap { offer_coin: balance[known], ask_denom: base_denom() },
        ],
{
    let pred = convertible(rates);
    let empty = Seq::<CoinView>::empty();
    assert(balance =~= empty.push(balance[0]).push(balance[1]).push(balance[2]));
    assert(empty.filter(pred) =~= empty) by {
        reveal(Seq::filter);
    }
    empty.lemma_filter_push(balance[0], pred);
    empty.push(balance[0]).lemma_filter_push(balance[1], pred);
    empty.push(balance[0]).push(balance[1]).lemma_filter_push(balance[2], pred);
}

/// A balance without a convertible holding, an empty one above all, is
/// left as it is: the second phase emits no exchange.
pub proof fn lemma_nothing_to_convert(balance: Seq<CoinView>, rates: ExchangeRatesResponseView)
    requires
        forall|j: int| 0 <= j < balance.len() ==> !is_convertible(#[trigger] balance[j], rates),
    ensures
        conversions(balance, rates) == Seq::<ActionView>::empty(),
{
    lemma_conversions_are_the_convertible(balance, rates);
    let swaps = conversions(balance, rates);
    if swaps.len() > 0 {
        // the first exchange would offer a holding that is convertible
        assert(balance.contains(swaps[0]->offer_coin));
    }
}

/// What a withdrawal of `amount`, asked for by `sender`, comes to once the
/// host has processed the whole atomic unit. The first phase sees the ledger
/// `begun`. The host then carries out what it emitted, in order: it collects
/// the rewards, and delivers the two self-calls as invocations by the
/// contract itself, the second phase against `rewarded`, the third against
/// `converted`. The unit is the actions of all three phases, or, if any
/// phase fails, that failure and no action at all.
pub open spec fn withdrawal_unit(
    state: StateView,
    this: Seq<char>,
    sender: Seq<char>,
    amount: nat,
    begun: LedgerView,
    rewarded: LedgerView,
    converted: LedgerView,
) -> Result<Seq<ActionView>, ContractError> {
    match step1_view(state, this, sender, amount, begun.delegations) {
        Err(e) => Err(e),
        Ok(first) => match step2_view(this, this, rewarded.balances, rewarded.exchange_rates) {
            Err(e) => Err(e),
            Ok(second) => match step3_view(
                this,
                this,
                amount,
                sender,
                held(converted.balances, base_denom()),
            ) {
                Err(e) => Err(e),
                Ok(third) => Ok(
                    first.messages.take(first.messages.len() - 2) + second.messages
                        + third.messages,
                ),
            },
        },
    }
}

/// A withdrawal is all or nothing. Asked for by anybody but the owner it
/// fails with `Unauthorized`; asked for by the owner it fails with
/// `InsufficientBalance` if, after the conversions, the contract holds less
/// of the base asset than `amount`. Otherwise the rewards are collected, what
/// can be converted is converted, and `amount` is paid to the owner, in that
/// order.
pub proof fn lemma_withdrawal_is_all_or_nothing(
    state: StateView,
    this: Seq<char>,
    sender: Seq<char>,
    amount: nat,
    begun: LedgerView,
    rewarded: LedgerView,
    converted: LedgerView,
)
    ensures
        withdrawal_unit(state, this, sender, amount, begun, rewarded, converted) == if sender
            != state.owner {
            Err::<Seq<ActionView>, ContractError>(ContractError::Unauthorized)
        } else if held(converted.balances, base_denom()) < amount {
            Err::<Seq<ActionView>, ContractError>(ContractError::InsufficientBalance)
        } else {
            Ok::<Seq<ActionView>, ContractError>(
                reward_actions(begun.delegations) + conversions(
                    rewarded.balances,
                    rewarded.exchange_rates,
                ) + payout_view(state.owner, amount).messages,
            )
        },
{
    if sender == state.owner {
        let first = step1_view(state, this, sender, amount, begun.delegations)->Ok_0;
        assert(first.messages.take(first.messages.len() - 2) =~= reward_actions(begun.delegations));
    }
}

} // verus!

//! The entry points of the oracle.

use vstd::prelude::*;
use crate::auth::ensure_owner;
use crate::error::ContractError;
use crate::oracle::msg::{ExecuteMsg, InstantiateMsg, PriceResponse, QueryMsg};
use crate::oracle::state::{State, StateView};
use crate::response::{action_attr, outcome, Response, ResponseView};
use crate::types::{attr, MessageInfo};

verus! {

/// The state with which an oracle created by `sender` at `price` begins. A
/// price of zero is refused, and then there is no state to persist.
pub open spec fn created(sender: Seq<char>, price: nat) -> Result<StateView, ContractError> {
    if price <= 0 {
        Err(ContractError::InvalidPrice)
    } else {
        Ok(StateView { price, owner: sender })
    }
}

/// Creates the oracle: the caller becomes its owner. Nothing is emitted.
pub fn instantiate(info: &MessageInfo, msg: InstantiateMsg) -> (r: Result<
    (State, Response),
    ContractError,
>)
    ensures
        match created(info@.sender, msg.price as nat) {
            Ok(begun) => r matches Ok((state, response)) && state@ == begun && state.wf()
                && response@ == (ResponseView { messages: Seq::empty(), attributes: Seq::empty() }),
            Err(e) => r == Err::<(State, Response), ContractError>(e),
        },
{
    if msg.price <= 0u64 {
        return Err(ContractError::InvalidPrice);
    }
    let state = State { price: msg.price, owner: info.sender.clone() };
    Ok((state, Response::new()))
}

/// The state after `sender` asked to set the price to `price`. Anybody but
/// the owner is refused, whatever the price; the owner is refused a price of
/// zero. The owner stays.
pub open spec fn updated(state: StateView, sender: Seq<char>, price: nat) -> Result<
    StateView,
    ContractError,
> {
    if sender != state.owner {
        Err(ContractError::Unauthorized)
    } else if price <= 0 {
        Err(ContractError::InvalidPrice)
    } else {
        Ok(StateView { price, owner: state.owner })
    }
}

/// What a successful update answers: nothing to do for the host, and a
/// note of what happened.
pub open spec fn update_response() -> ResponseView {
    ResponseView { messages: Seq::empty(), attributes: action_attr("update_price"@) }
}

/// An update asked for by `sender` took the oracle from `before` to
/// `after` and was answered with `r`: on refusal the state is as it was.
pub open spec fn price_update(
    before: State,
    sender: Seq<char>,
    price: nat,
    after: State,
    r: Result<Response, ContractError>,
) -> bool {
    match updated(before@, sender, price) {
        Ok(next) => after@ == next && after.wf() && outcome(r) == Ok::<
            ResponseView,
            ContractError,
        >(update_response()),
        Err(e) => after == before && r == Err::<Response, ContractError>(e),
    }
}

/// Sets the price.
pub fn update_price(state: &mut State, info: &MessageInfo, price: u64) -> (r: Result<
    Response,
    ContractError,
>)
    ensures
        price_update(*old(state), info@.sender, price as nat, *final(state), r),
{
    ensure_owner(&state.owner, info)?;
    if price <= 0u64 {
        return Err(ContractError::InvalidPrice);
    }
    state.price = price;
    Ok(Response::new().add_attribute(attr("action", "update_price")))
}

/// Carries out `msg`.
pub fn execute(state: &mut State, info: &MessageInfo, msg: ExecuteMsg) -> (r: Result<
    Response,
    ContractError,
>)
    ensures
        match msg {
            ExecuteMsg::UpdatePrice { price } => price_update(
                *old(state),
                info@.sender,
                price as nat,
                *final(state),
                r,
            ),
        },
{
    match msg {
        ExecuteMsg::UpdatePrice { price } => update_price(state, info, price),
    }
}

/// The price that a state holds.
pub open spec fn price_of(state: StateView) -> nat {
    state.price
}

/// The current price.
pub fn query_price(state: &State) -> (r: Result<PriceResponse, ContractError>)
    ensures
        r matches Ok(response) && response.price == price_of(state@),
{
    Ok(PriceResponse { price: state.price })
}

/// Answers `msg` from the persisted state.
pub fn query(state: &State, msg: &QueryMsg) -> (r: Result<PriceResponse, ContractError>)
    ensures
        r matches Ok(response) && response.price == price_of(state@),
{
    match msg {
        QueryMsg::QueryPrice {  } => query_price(state),
    }
}

/// An oracle is not created at a price of zero, whoever asks: the attempt
/// fails with `InvalidPrice`, and there is no state to persist.
pub proof fn lemma_zero_price_creates_nothing(sender: Seq<char>)
    ensures
        created(sender, 0) == Err::<StateView, ContractError>(ContractError::InvalidPrice),
{
}

/// A price that the owner sets is the price that is read afterwards: an
/// update by the owner to a positive price succeeds, and the state it leaves
/// holds that price.
pub proof fn lemma_set_then_get(
    before: State,
    sender: Seq<char>,
    price: nat,
    after: State,
    r: Result<Response, ContractError>,
)
    requires
        price > 0,
        sender == before@.owner,
        price_update(before, sender, price, after, r),
    ensures
        r is Ok,
        price_of(after@) == price,
{
}

/// Whoever is not the owner is refused with `Unauthorized`, whether the
/// price is valid or not, and the state stays what it was.
pub proof fn lemma_stranger_cannot_set(
    before: State,
    sender: Seq<char>,
    price: nat,
    after: State,
    r: Result<Response, ContractError>,
)
    requires
        sender != before@.owner,
        price_update(before, sender, price, after, r),
    ensures
        r == Err::<Response, ContractError>(ContractError::Unauthorized),
        after == before,
{
}

/// The price of an oracle is positive from its creation on, and its owner
/// is who created it, whatever is asked of it.
pub proof fn lemma_price_stays_positive(state: StateView, sender: Seq<char>, price: nat)
    ensures
        created(sender, price) matches Ok(begun) ==> price_of(begun) > 0 && begun.owner == sender,
        updated(state, sender, price) matches Ok(next) ==> next.owner == state.owner && (price_of(
            state,
        ) > 0 ==> price_of(next) > 0),
{
}

} // verus!

//! The authorization guard: who may invoke an operation.
//!
//! An operation is open to anyone, to the owner alone, or to the contract
//! itself alone. The last is what keeps an outside caller from entering a
//! pipeline in the middle.

use vstd::prelude::*;
use crate::error::ContractError;
use crate::types::{Addr, Env, MessageInfo};

verus! {

/// `Ok` for `expected` itself, `Unauthorized` for everybody else.
pub open spec fn guard(expected: Seq<char>, sender: Seq<char>) -> Result<(), ContractError> {
    if sender == expected {
        Ok(())
    } else {
        Err(ContractError::Unauthorized)
    }
}

/// Lets only `owner` pass.
pub fn ensure_owner(owner: &Addr, info: &MessageInfo) -> (r: Result<(), ContractError>)
    ensures
        r == guard(owner@, info@.sender),
{
    if info.sender != *owner {
        return Err(ContractError::Unauthorized);
    }
    Ok(())
}

/// Lets only the invoked contract itself pass.
pub fn ensure_self(env: &Env, info: &MessageInfo) -> (r: Result<(), ContractError>)
    ensures
        r == guard(env.this(), info@.sender),
{
    if info.sender != env.contract.address {
        return Err(ContractError::Unauthorized);
    }
    Ok(())
}

} // verus!

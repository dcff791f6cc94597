//! The ways in which an invocation is refused.

use vstd::prelude::*;

verus! {

/// The error with which `cosmwasm_std` reports a failure of its own, such as
/// a message that could not be encoded. Nothing is known of its contents here.
#[verifier::external_type_specification]
#[verifier::external_body]
pub struct ExStdError(cosmwasm_std::StdError);

/// Why an invocation was refused. Every error is found before any action is
/// emitted, and aborts the whole atomic unit that the invocation belongs to.
#[derive(Debug, PartialEq)]
pub enum ContractError {
    /// A failure reported by `cosmwasm_std`.
    Std(cosmwasm_std::StdError),
    /// The caller failed an owner-only or self-only check.
    Unauthorized,
    /// An amount that must be positive is not.
    InvalidAmount,
    /// A price that must be positive is not.
    InvalidPrice,
    /// No positive amount of the collateral asset came with the call.
    NoFundsSent,
    /// The contract holds less of the base asset than was asked for.
    InsufficientBalance,
    /// The operation is not implemented.
    NotImplemented,
}

} // verus!

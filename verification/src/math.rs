//! Token quantities.

use vstd::prelude::*;
use cosmwasm_std::Uint128;

verus! {

/// `Uint128::multiply_ratio` of `cosmwasm_std`: `base * numerator /
/// denominator`, rounded down, with the product taken in 256 bits. The call
/// panics on a zero denominator and on a quotient that does not fit in 128
/// bits; both are excluded here. Trusted, not proved.
#[verifier::external_body]
fn multiply_ratio(base: u128, numerator: u128, denominator: u128) -> (r: u128)
    requires
        denominator != 0,
        (base * numerator) / (denominator as int) <= u128::MAX,
    ensures
        r == (base * numerator) / (denominator as int),
{
    Uint128::new(base).multiply_ratio(numerator, denominator).u128()
}

/// How many tokens `collateral` buys at `price`: the quotient, rounded down.
pub open spec fn tokens_for(collateral: nat, price: nat) -> nat
    recommends
        price > 0,
{
    collateral / price
}

/// The tokens owed for `collateral` at `price`.
pub fn lemons_for(collateral: u128, price: u64) -> (r: u128)
    requires
        price > 0,
    ensures
        r == tokens_for(collateral as nat, price as nat),
{
    proof {
        lemma_tokens_for_is_floor(collateral as nat, price as nat);
    }
    multiply_ratio(1, collateral, price as u128)
}

/// `tokens_for` never rounds up: `q * price <= collateral < (q + 1) * price`
/// holds of it, and so it is at most `collateral`.
pub proof fn lemma_tokens_for_is_floor(collateral: nat, price: nat)
    requires
        price > 0,
    ensures
        tokens_for(collateral, price) * price <= collateral,
        collateral < (tokens_for(collateral, price) + 1) * price,
        tokens_for(collateral, price) <= collateral,
{
    let q = collateral / price;
    assert(q * price <= collateral && collateral < (q + 1) * price && q <= collateral)
        by (nonlinear_arith)
        requires
            price > 0,
            q == collateral / price,
    ;
}

/// Only `tokens_for` lies within one `price` below `collateral`.
pub proof fn lemma_tokens_for_is_unique(collateral: nat, price: nat, q: nat)
    requires
        price > 0,
        q * price <= collateral < (q + 1) * price,
    ensures
        q == tokens_for(collateral, price),
{
    lemma_tokens_for_is_floor(collateral, price);
    let q0 = tokens_for(collateral, price);
    assert(q == q0) by (nonlinear_arith)
        requires
            price > 0,
            q * price <= collateral < (q + 1) * price,
            q0 * price <= collateral < (q0 + 1) * price,
    ;
}

} // verus!

//! Arithmetic on token and coin amounts.

use cosmwasm_std::DivideByZeroError;
use cosmwasm_std::Uint128;
use vstd::prelude::*;

use crate::error::ContractError;

verus! {

/// The error of `cosmwasm_std` for a division by zero, carried as it comes.
#[verifier::external_type_specification]
#[verifier::external_body]
pub struct ExDivideByZeroError(DivideByZeroError);

/// Calls `cosmwasm_std::Uint128::checked_div` on two amounts.
///
/// Trusted: the call fails exactly when the divisor is zero, and otherwise
/// yields the quotient rounded towards zero.
#[verifier::external_body]
pub(crate) fn checked_div(dividend: u128, divisor: u128) -> (r: Result<u128, DivideByZeroError>)
    ensures
        r is Err <==> divisor == 0,
        r matches Ok(q) ==> q == dividend as int / divisor as int,
{
    match Uint128::new(dividend).checked_div(Uint128::new(divisor)) {
        Ok(q) => Ok(q.u128()),
        Err(e) => Err(e),
    }
}

/// The number of whole tokens that `deposit` buys at `unit_price`, when the
/// price is positive.
pub open spec fn buyable(deposit: u128, unit_price: u128) -> int
    recommends
        unit_price > 0,
{
    deposit as int / unit_price as int
}

/// The tokens bought are the largest whole number of tokens whose cost, at
/// the unit price, is within the deposit. They are never more than the
/// deposit itself.
pub proof fn buyable_rounds_down(deposit: u128, unit_price: u128)
    requires
        unit_price > 0,
    ensures
        0 <= buyable(deposit, unit_price) <= deposit,
        buyable(deposit, unit_price) * unit_price <= deposit,
        deposit < (buyable(deposit, unit_price) + 1) * unit_price,
{
    let d = deposit as int;
    let p = unit_price as int;
    assert(0 <= d / p <= d && (d / p) * p <= d < (d / p + 1) * p) by (nonlinear_arith)
        requires
            d >= 0,
            p > 0,
    ;
}

/// Computes how many tokens a deposit buys: the quotient of deposit and unit
/// price, rounded down. A unit price of zero is rejected.
pub fn buyable_amount(deposit: u128, unit_price: u128) -> (r: Result<u128, ContractError>)
    ensures
        unit_price == 0 <==> r == Err::<u128, ContractError>(ContractError::InvalidPrice),
        unit_price > 0 <==> r is Ok,
        r matches Ok(q) ==> q == buyable(deposit, unit_price),
{
    match checked_div(deposit, unit_price) {
        Ok(q) => Ok(q),
        Err(_) => Err(ContractError::InvalidPrice),
    }
}

} // verus!

//! Validation of configuration parameters.

use vstd::prelude::*;
use crate::error::ContractError;

verus! {

/// `10^n`.
pub open spec fn spec_pow10(n: nat) -> nat
    decreases n,
{
    if n == 0 {
        1
    } else {
        10 * spec_pow10((n - 1) as nat)
    }
}

proof fn lemma_pow10_increases(a: nat, b: nat)
    requires
        a <= b,
    ensures
        spec_pow10(a) <= spec_pow10(b),
    decreases b,
{
    if a < b {
        lemma_pow10_increases(a, (b - 1) as nat);
    }
}

/// Checks the decimal-place count and returns the scale factor
/// `10^decimal_places`.  Fewer than six places are rejected.
pub fn validate_decimal_places(decimal_places: u8) -> (r: Result<u128, ContractError>)
    requires
        decimal_places <= 38,
    ensures
        decimal_places < 6 ==> r == Err::<u128, ContractError>(ContractError::InvalidDecimalPlaces),
        decimal_places >= 6 ==> (r matches Ok(v) && v as nat == spec_pow10(
            decimal_places as nat,
        )),
{
    if decimal_places < 6u8 {
        return Err(ContractError::InvalidDecimalPlaces);
    }
    proof {
        reveal_with_fuel(spec_pow10, 40);
        assert(spec_pow10(38) < u128::MAX as nat);
    }
    let mut acc: u128 = 1;
    let mut i: u8 = 0;
    while i < decimal_places
        invariant
            i <= decimal_places,
            decimal_places <= 38,
            acc as nat == spec_pow10(i as nat),
            spec_pow10(38) < u128::MAX as nat,
        decreases decimal_places - i,
    {
        proof {
            lemma_pow10_increases(i as nat + 1, 38);
        }
        acc = acc * 10;
        i = i + 1;
    }
    Ok(acc)
}

/// Checks that a value scaled by `decimals` is at least one.
pub fn validate_non_fraction(value: u128, decimals: u128) -> (r: Result<(), ContractError>)
    ensures
        r is Err <==> value < decimals,
        r is Err ==> r == Err::<(), ContractError>(ContractError::InvalidRatio),
{
    if value < decimals {
        Err(ContractError::InvalidRatio)
    } else {
        Ok(())
    }
}

/// Checks that a ratio scaled by `decimals` lies between zero and one.
pub fn validate_ratio(value: u128, decimals: u128) -> (r: Result<(), ContractError>)
    ensures
        r is Err <==> value > decimals,
        r is Err ==> r == Err::<(), ContractError>(ContractError::InvalidRatio),
{
    if value > decimals {
        Err(ContractError::InvalidRatio)
    } else {
        Ok(())
    }
}

/// Checks that the maintenance margin ratio does not exceed the initial
/// margin ratio.
pub fn validate_margin_ratios(initial_margin: u128, maintenance_margin: u128) -> (r: Result<
    (),
    ContractError,
>)
    ensures
        r is Err <==> maintenance_margin > initial_margin,
        r is Err ==> r == Err::<(), ContractError>(ContractError::InvalidMarginRatios),
{
    if maintenance_margin > initial_margin {
        Err(ContractError::InvalidMarginRatios)
    } else {
        Ok(())
    }
}

} // verus!

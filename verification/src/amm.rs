//! Constant-product quoting over a pair of vAMM reserves.
//!
//! The live vAMM executes swaps itself; the engine only needs this math to
//! simulate price impact locally — most importantly during batch
//! take-profit/stop-loss triggering, where later positions in a batch must
//! see the cumulative impact of earlier closes before any of them is
//! confirmed.  Quotients of the pool invariant are rounded against the
//! trader (the reserve left in the pool is rounded up).

use vstd::prelude::*;
use crate::error::ContractError;
use crate::types::Direction;

verus! {

/// The pool invariant `k`, as a mathematical integer.
pub open spec fn pool_k(quote_reserve: u128, base_reserve: u128) -> int {
    quote_reserve as int * base_reserve as int
}

/// `a / b` rounded up, for a positive divisor.
pub open spec fn ceil_div_int(a: int, b: int) -> int {
    a / b + if a % b == 0 {
        0int
    } else {
        1int
    }
}

/// Rounding up never exceeds a bound whose product form dominates the
/// numerator.
proof fn lemma_ceil_div_le(k: int, d: int, b: int)
    requires
        d > 0,
        0 <= k,
        k <= d * b,
    ensures
        ceil_div_int(k, d) <= b,
{
    let q = k / d;
    let m = k % d;
    vstd::arithmetic::div_mod::lemma_fundamental_div_mod(k, d);
    if m == 0 {
        assert(d * q <= d * b ==> q <= b) by (nonlinear_arith)
            requires
                d > 0,
        ;
    } else {
        assert(d * q < d * b ==> q < b) by (nonlinear_arith)
            requires
                d > 0,
        ;
    }
}

/// After shrinking the divisor reserve of a full pool, the rounded-up
/// quotient of the invariant is at least the other reserve.
proof fn lemma_ceil_div_ge(k: int, d: int, other: int, full: int)
    requires
        d > 0,
        0 <= other,
        d <= full,
        k == full * other,
    ensures
        other <= ceil_div_int(k, d),
{
    assert(d * other <= k) by (nonlinear_arith)
        requires
            0 <= other,
            d <= full,
            k == full * other,
    ;
    let q = k / d;
    let m = k % d;
    vstd::arithmetic::div_mod::lemma_fundamental_div_mod(k, d);
    vstd::arithmetic::div_mod::lemma_mod_bound(k, d);
    assert((d * other <= d * q + m && 0 <= m < d) ==> other <= q + (if m == 0 {
        0int
    } else {
        1int
    })) by (nonlinear_arith)
        requires
            d > 0,
    ;
}

/// The rounded-up quotient of a non-negative numerator is non-negative, and
/// bounded by the numerator itself.
proof fn lemma_ceil_div_bounds(k: int, d: int)
    requires
        d > 0,
        0 <= k,
    ensures
        0 <= ceil_div_int(k, d),
        ceil_div_int(k, d) <= k,
        d == 1 ==> ceil_div_int(k, d) == k,
{
    vstd::arithmetic::div_mod::lemma_fundamental_div_mod(k, d);
    vstd::arithmetic::div_mod::lemma_mod_bound(k, d);
    let q = k / d;
    let m = k % d;
    assert(0 <= q && (m == 0 ==> q <= k) && (m != 0 ==> q + 1 <= k) && (d == 1 ==> q == k && m
        == 0)) by (nonlinear_arith)
        requires
            d > 0,
            0 <= k,
            k == d * q + m,
            0 <= m < d,
    ;
}

/// `ceil_div_int(k, d)`, executable.  The divisor must be positive and the
/// numerator is the pool invariant, so the rounded quotient fits in `u128`.
fn ceil_div_u128(k: u128, d: u128) -> (r: u128)
    requires
        d > 0,
    ensures
        r as int == ceil_div_int(k as int, d as int),
{
    proof {
        lemma_ceil_div_bounds(k as int, d as int);
    }
    let q: u128 = k / d;
    let m: u128 = k % d;
    if m == 0 {
        q
    } else {
        q + 1
    }
}

/// Base-asset amount moved by a swap of `quote_asset_amount` quote asset:
/// the trader supplies quote and receives base for `AddToAmm`, and supplies
/// base to withdraw quote for `RemoveFromAmm`.  Fails when the pool cannot
/// source the requested quote amount.
pub fn get_input_price_with_reserves(
    direction: &Direction,
    quote_asset_amount: u128,
    quote_asset_reserve: u128,
    base_asset_reserve: u128,
) -> (r: Result<u128, ContractError>)
    requires
        quote_asset_reserve > 0,
        base_asset_reserve > 0,
        pool_k(quote_asset_reserve, base_asset_reserve) <= u128::MAX as int,
    ensures
        direction == Direction::AddToAmm ==> {
            &&& quote_asset_reserve + quote_asset_amount <= u128::MAX as int ==> (r matches Ok(v)
                && v as int == base_asset_reserve - ceil_div_int(
                pool_k(quote_asset_reserve, base_asset_reserve),
                quote_asset_reserve + quote_asset_amount,
            ))
            &&& quote_asset_reserve + quote_asset_amount > u128::MAX as int ==> r == Err::<
                u128,
                ContractError,
            >(ContractError::Overflow)
        },
        direction == Direction::RemoveFromAmm ==> {
            &&& quote_asset_amount < quote_asset_reserve ==> (r matches Ok(v) && v as int
                == ceil_div_int(
                pool_k(quote_asset_reserve, base_asset_reserve),
                quote_asset_reserve - quote_asset_amount,
            ) - base_asset_reserve)
            &&& quote_asset_amount == quote_asset_reserve ==> r == Err::<u128, ContractError>(
                ContractError::DivideByZero,
            )
            &&& quote_asset_amount > quote_asset_reserve ==> r == Err::<u128, ContractError>(
                ContractError::Overflow,
            )
        },
{
    let ghost k_spec: int = pool_k(quote_asset_reserve, base_asset_reserve);
    let k: u128 = quote_asset_reserve * base_asset_reserve;
    match direction {
        Direction::AddToAmm => {
            proof {
                assert(k_spec <= (quote_asset_reserve + quote_asset_amount) * base_asset_reserve)
                    by (nonlinear_arith)
                    requires
                        k_spec == quote_asset_reserve as int * base_asset_reserve as int,
                        quote_asset_amount >= 0,
                        base_asset_reserve >= 0,
                ;
                lemma_ceil_div_le(
                    k_spec,
                    quote_asset_reserve as int + quote_asset_amount as int,
                    base_asset_reserve as int,
                );
            }
            let quote_after: u128 = match quote_asset_reserve.checked_add(quote_asset_amount) {
                Some(v) => v,
                None => {
                    return Err(ContractError::Overflow);
                },
            };
            let base_after: u128 = ceil_div_u128(k, quote_after);
            Ok(base_asset_reserve - base_after)
        },
        Direction::RemoveFromAmm => {
            if quote_asset_amount > quote_asset_reserve {
                return Err(ContractError::Overflow);
            }
            let quote_after: u128 = quote_asset_reserve - quote_asset_amount;
            if quote_after == 0 {
                return Err(ContractError::DivideByZero);
            }
            proof {
                lemma_ceil_div_bounds(k_spec, quote_after as int);
                lemma_ceil_div_ge(
                    k_spec,
                    quote_after as int,
                    base_asset_reserve as int,
                    quote_asset_reserve as int,
                );
            }
            let base_after: u128 = ceil_div_u128(k, quote_after);
            Ok(base_after - base_asset_reserve)
        },
    }
}

/// Quote-asset amount moved by a swap of `base_asset_amount` base asset:
/// the trader supplies base and receives quote for `AddToAmm`, and supplies
/// quote to withdraw base for `RemoveFromAmm`.  Fails when the pool cannot
/// source the requested base amount.
pub fn get_output_price_with_reserves(
    direction: &Direction,
    base_asset_amount: u128,
    quote_asset_reserve: u128,
    base_asset_reserve: u128,
) -> (r: Result<u128, ContractError>)
    requires
        quote_asset_reserve > 0,
        base_asset_reserve > 0,
        pool_k(quote_asset_reserve, base_asset_reserve) <= u128::MAX as int,
    ensures
        direction == Direction::AddToAmm ==> {
            &&& base_asset_reserve + base_asset_amount <= u128::MAX as int ==> (r matches Ok(v)
                && v as int == quote_asset_reserve - ceil_div_int(
                pool_k(quote_asset_reserve, base_asset_reserve),
                base_asset_reserve + base_asset_amount,
            ))
            &&& base_asset_reserve + base_asset_amount > u128::MAX as int ==> r == Err::<
                u128,
                ContractError,
            >(ContractError::Overflow)
        },
        direction == Direction::RemoveFromAmm ==> {
            &&& base_asset_amount < base_asset_reserve ==> (r matches Ok(v) && v as int
                == ceil_div_int(
                pool_k(quote_asset_reserve, base_asset_reserve),
                base_asset_reserve - base_asset_amount,
            ) - quote_asset_reserve)
            &&& base_asset_amount == base_asset_reserve ==> r == Err::<u128, ContractError>(
                ContractError::DivideByZero,
            )
            &&& base_asset_amount > base_asset_reserve ==> r == Err::<u128, ContractError>(
                ContractError::Overflow,
            )
        },
{
    let ghost k_spec: int = pool_k(quote_asset_reserve, base_asset_reserve);
    let k: u128 = quote_asset_reserve * base_asset_reserve;
    match direction {
        Direction::AddToAmm => {
            proof {
                assert(k_spec <= (base_asset_reserve + base_asset_amount) * quote_asset_reserve)
                    by (nonlinear_arith)
                    requires
                        k_spec == quote_asset_reserve as int * base_asset_reserve as int,
                        base_asset_amount >= 0,
                        quote_asset_reserve >= 0,
                ;
                lemma_ceil_div_le(
                    k_spec,
                    base_asset_reserve as int + base_asset_amount as int,
                    quote_asset_reserve as int,
                );
            }
            let base_after: u128 = match base_asset_reserve.checked_add(base_asset_amount) {
                Some(v) => v,
                None => {
                    return Err(ContractError::Overflow);
                },
            };
            let quote_after: u128 = ceil_div_u128(k, base_after);
            Ok(quote_asset_reserve - quote_after)
        },
        Direction::RemoveFromAmm => {
            if base_asset_amount > base_asset_reserve {
                return Err(ContractError::Overflow);
            }
            let base_after: u128 = base_asset_reserve - base_asset_amount;
            if base_after == 0 {
                return Err(ContractError::DivideByZero);
            }
            proof {
                lemma_ceil_div_bounds(k_spec, base_after as int);
                lemma_ceil_div_ge(
                    k_spec,
                    base_after as int,
                    quote_asset_reserve as int,
                    base_asset_reserve as int,
                );
            }
            let quote_after: u128 = ceil_div_u128(k, base_after);
            Ok(quote_after - quote_asset_reserve)
        },
    }
}

} // verus!

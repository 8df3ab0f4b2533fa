//! Margin and profit-and-loss calculations.
//!
//! Everything here is pure: the vAMM and oracle quotes a calculation depends
//! on are taken as arguments, so each function is deterministic in what it
//! is given.  Amounts are fixed-point with scale `decimals`.

use vstd::prelude::*;
use crate::error::ContractError;
use crate::integer::{Integer, abs_int, div_towards_zero};
use crate::types::{Direction, Position, PositionUnrealizedPnlResponse, RemainMarginResponse};

verus! {

/// `a * b / c` over mathematical integers, truncating.
pub open spec fn spec_mul_div(a: int, b: int, c: int) -> int {
    (a * b) / c
}

/// Funding owed by or to a position since its last settlement:
/// `(latest - last) * size / decimals`, truncated towards zero.  The sign
/// follows the position: a long pays when the premium grew.
pub open spec fn spec_funding_payment(size: int, last: int, latest: int, decimals: int) -> int {
    div_towards_zero((latest - last) * size, decimals)
}

/// The margin left after applying a delta and settling funding, before
/// clamping: `margin_delta - funding + margin`.
pub open spec fn spec_unclamped_margin(margin: int, margin_delta: int, funding: int) -> int {
    margin_delta - funding + margin
}

/// The margin a settlement leaves: the unclamped value, floored at zero.
pub open spec fn spec_settled_margin(margin: int, margin_delta: int, funding: int) -> int {
    let unclamped = spec_unclamped_margin(margin, margin_delta, funding);
    if unclamped >= 0 {
        unclamped
    } else {
        0
    }
}

/// The bad debt a settlement surfaces: the shortfall below zero.
pub open spec fn spec_settled_bad_debt(margin: int, margin_delta: int, funding: int) -> int {
    let unclamped = spec_unclamped_margin(margin, margin_delta, funding);
    if unclamped >= 0 {
        0
    } else {
        -unclamped
    }
}

/// A settlement never leaves a negative margin: for every margin, delta
/// and funding value, the settled margin is at least zero, and exactly
/// when the unclamped value falls below zero the settled margin is zero
/// and the bad debt is the unclamped value's absolute magnitude; otherwise
/// the bad debt is zero.
pub proof fn lemma_remaining_margin_never_negative(margin: int, margin_delta: int, funding: int)
    ensures
        spec_settled_margin(margin, margin_delta, funding) >= 0,
        spec_unclamped_margin(margin, margin_delta, funding) < 0 ==> spec_settled_margin(
            margin,
            margin_delta,
            funding,
        ) == 0 && spec_settled_bad_debt(margin, margin_delta, funding) == -spec_unclamped_margin(
            margin,
            margin_delta,
            funding,
        ),
        spec_unclamped_margin(margin, margin_delta, funding) >= 0 ==> spec_settled_margin(
            margin,
            margin_delta,
            funding,
        ) == spec_unclamped_margin(margin, margin_delta, funding) && spec_settled_bad_debt(
            margin,
            margin_delta,
            funding,
        ) == 0,
{
}

/// The unrealized PnL of a position against a quoted closing notional:
/// positive when closing would return more than the recorded notional for a
/// long, and the mirror for a short.
pub open spec fn spec_unrealized_pnl(direction: Direction, notional: int, quoted: int) -> int {
    if direction == Direction::AddToAmm {
        quoted - notional
    } else {
        notional - quoted
    }
}

/// `a * b / c` with 128-bit intermediate values; the building block of all
/// fixed-point scaling in the engine.
pub fn checked_mul_div(a: u128, b: u128, c: u128) -> (r: Result<u128, ContractError>)
    ensures
        a as int * b as int > u128::MAX as int ==> r == Err::<u128, ContractError>(
            ContractError::Overflow,
        ),
        a as int * b as int <= u128::MAX as int && c == 0 ==> r == Err::<u128, ContractError>(
            ContractError::DivideByZero,
        ),
        a as int * b as int <= u128::MAX as int && c > 0 ==> (r matches Ok(v) && v as int
            == spec_mul_div(a as int, b as int, c as int)),
{
    match a.checked_mul(b) {
        Some(product) => {
            if c == 0 {
                Err(ContractError::DivideByZero)
            } else {
                Ok(product / c)
            }
        },
        None => Err(ContractError::Overflow),
    }
}

/// Notional value and unrealized PnL of a position, given the quoted
/// notional of closing its full size.  A zero-size position has zero
/// notional and zero PnL by definition, whatever the quote says.
pub fn position_notional_unrealized_pnl(position: &Position, quoted_notional: u128) -> (r:
    PositionUnrealizedPnlResponse)
    requires
        position.well_formed(),
    ensures
        position.size.as_int() == 0 ==> r.position_notional == 0 && r.unrealized_pnl.as_int()
            == 0,
        position.size.as_int() != 0 ==> r.position_notional == quoted_notional
            && r.unrealized_pnl.as_int() == spec_unrealized_pnl(
            position.direction,
            position.notional as int,
            quoted_notional as int,
        ),
        r.unrealized_pnl.well_formed(),
{
    if position.size.is_zero() {
        PositionUnrealizedPnlResponse {
            position_notional: 0,
            unrealized_pnl: Integer::zero(),
        }
    } else {
        let quoted: Integer = Integer::new_positive(quoted_notional);
        let recorded: Integer = Integer::new_positive(position.notional);
        let pnl: Integer = match position.direction {
            Direction::AddToAmm => quoted.checked_sub(&recorded).unwrap(),
            Direction::RemoveFromAmm => recorded.checked_sub(&quoted).unwrap(),
        };
        PositionUnrealizedPnlResponse { position_notional: quoted_notional, unrealized_pnl: pnl }
    }
}

/// Settles funding into a position's margin and applies a margin delta.
/// The remaining margin is clamped at zero: whenever the unclamped value
/// would be negative, the returned `margin` is exactly zero and `bad_debt`
/// is the absolute value of the shortfall; otherwise `bad_debt` is zero.
pub fn calc_remain_margin_with_funding_payment(
    position: &Position,
    margin_delta: Integer,
    latest_premium_fraction: Integer,
    decimals: u128,
) -> (r: RemainMarginResponse)
    requires
        position.well_formed(),
        margin_delta.well_formed(),
        latest_premium_fraction.well_formed(),
        decimals > 0,
        abs_int(
            latest_premium_fraction.as_int() - position.last_updated_premium_fraction.as_int(),
        ) <= u128::MAX as int,
        abs_int(
            (latest_premium_fraction.as_int() - position.last_updated_premium_fraction.as_int())
                * position.size.as_int(),
        ) <= u128::MAX as int,
        abs_int(
            spec_unclamped_margin(
                position.margin as int,
                margin_delta.as_int(),
                spec_funding_payment(
                    position.size.as_int(),
                    position.last_updated_premium_fraction.as_int(),
                    latest_premium_fraction.as_int(),
                    decimals as int,
                ),
            ),
        ) <= u128::MAX as int,
        abs_int(
            margin_delta.as_int() - spec_funding_payment(
                position.size.as_int(),
                position.last_updated_premium_fraction.as_int(),
                latest_premium_fraction.as_int(),
                decimals as int,
            ),
        ) <= u128::MAX as int,
    ensures
        ({
            let funding = spec_funding_payment(
                position.size.as_int(),
                position.last_updated_premium_fraction.as_int(),
                latest_premium_fraction.as_int(),
                decimals as int,
            );
            let unclamped = spec_unclamped_margin(
                position.margin as int,
                margin_delta.as_int(),
                funding,
            );
            &&& r.funding_payment.as_int() == funding
            &&& r.funding_payment.well_formed()
            &&& unclamped >= 0 ==> r.margin as int == unclamped && r.bad_debt == 0
            &&& unclamped < 0 ==> r.margin == 0 && r.bad_debt as int == -unclamped
            &&& r.margin as int == spec_settled_margin(
                position.margin as int,
                margin_delta.as_int(),
                funding,
            )
            &&& r.bad_debt as int == spec_settled_bad_debt(
                position.margin as int,
                margin_delta.as_int(),
                funding,
            )
            &&& r.latest_premium_fraction == latest_premium_fraction
        }),
{
    let diff: Integer = latest_premium_fraction.checked_sub(
        &position.last_updated_premium_fraction,
    ).unwrap();
    let product: Integer = diff.checked_mul(&position.size).unwrap();
    let funding_payment: Integer = product.checked_div(&Integer::new_positive(decimals)).unwrap();

    let after_delta: Integer = margin_delta.checked_sub(&funding_payment).unwrap();
    let remaining: Integer = after_delta.checked_add(&Integer::new_positive(position.margin))
        .unwrap();

    if remaining.is_negative() {
        let bad_debt: Integer = remaining.invert_sign();
        RemainMarginResponse {
            funding_payment,
            margin: 0,
            bad_debt: bad_debt.value,
            latest_premium_fraction,
        }
    } else {
        RemainMarginResponse {
            funding_payment,
            margin: remaining.value,
            bad_debt: 0,
            latest_premium_fraction,
        }
    }
}

/// The funding a position will receive (positive) or pay (negative) at
/// settlement: the negation of the owed amount, and zero for a zero-size
/// position.
pub fn calc_funding_payment(
    position: &Position,
    latest_premium_fraction: Integer,
    decimals: u128,
) -> (r: Integer)
    requires
        position.well_formed(),
        latest_premium_fraction.well_formed(),
        decimals > 0,
        abs_int(
            latest_premium_fraction.as_int() - position.last_updated_premium_fraction.as_int(),
        ) <= u128::MAX as int,
        abs_int(
            (latest_premium_fraction.as_int() - position.last_updated_premium_fraction.as_int())
                * position.size.as_int(),
        ) <= u128::MAX as int,
    ensures
        position.size.as_int() == 0 ==> r.as_int() == 0,
        position.size.as_int() != 0 ==> r.as_int() == -spec_funding_payment(
            position.size.as_int(),
            position.last_updated_premium_fraction.as_int(),
            latest_premium_fraction.as_int(),
            decimals as int,
        ),
        r.well_formed(),
{
    if position.size.is_zero() {
        Integer::zero()
    } else {
        let diff: Integer = latest_premium_fraction.checked_sub(
            &position.last_updated_premium_fraction,
        ).unwrap();
        let product: Integer = diff.checked_mul(&position.size).unwrap();
        let owed: Integer = product.checked_div(&Integer::new_positive(decimals)).unwrap();
        owed.invert_sign()
    }
}

/// A copy of the position with pending funding folded into its margin,
/// clamped at zero.  This is the lazy funding catch-up applied on reads.
pub fn position_with_funding_payment(
    position: &Position,
    latest_premium_fraction: Integer,
    decimals: u128,
) -> (r: Position)
    requires
        position.well_formed(),
        latest_premium_fraction.well_formed(),
        decimals > 0,
        abs_int(
            latest_premium_fraction.as_int() - position.last_updated_premium_fraction.as_int(),
        ) <= u128::MAX as int,
        abs_int(
            (latest_premium_fraction.as_int() - position.last_updated_premium_fraction.as_int())
                * position.size.as_int(),
        ) <= u128::MAX as int,
        abs_int(
            position.margin as int - spec_funding_payment(
                position.size.as_int(),
                position.last_updated_premium_fraction.as_int(),
                latest_premium_fraction.as_int(),
                decimals as int,
            ),
        ) <= u128::MAX as int,
    ensures
        ({
            let funding = if position.size.as_int() == 0 {
                0int
            } else {
                -spec_funding_payment(
                    position.size.as_int(),
                    position.last_updated_premium_fraction.as_int(),
                    latest_premium_fraction.as_int(),
                    decimals as int,
                )
            };
            let with_funding = position.margin as int + funding;
            &&& with_funding > 0 ==> r.margin as int == with_funding
            &&& with_funding <= 0 ==> r.margin == 0
            &&& r == (Position { margin: r.margin, ..*position })
        }),
{
    let funding_payment: Integer = calc_funding_payment(
        position,
        latest_premium_fraction,
        decimals,
    );
    let with_funding: Integer = Integer::new_positive(position.margin).checked_add(
        &funding_payment,
    ).unwrap();
    let new_margin: u128 = if with_funding.is_positive() {
        with_funding.value
    } else {
        0
    };
    Position {
        position_id: position.position_id,
        vamm: position.vamm.clone(),
        pair: position.pair.clone(),
        trader: position.trader.clone(),
        side: position.side,
        direction: position.direction,
        size: position.size,
        margin: new_margin,
        notional: position.notional,
        entry_price: position.entry_price,
        take_profit: position.take_profit,
        stop_loss: position.stop_loss,
        spread_fee: position.spread_fee,
        toll_fee: position.toll_fee,
        last_updated_premium_fraction: position.last_updated_premium_fraction,
        block_time: position.block_time,
        expire_time: position.expire_time,
    }
}

/// The margin ratio of a position: remaining margin net of bad debt, scaled
/// by `decimals`, relative to the quoted position notional.  Zero for a
/// zero-size position, with no quote consulted.
pub fn margin_ratio(
    position: &Position,
    quoted_notional: u128,
    latest_premium_fraction: Integer,
    decimals: u128,
) -> (r: Integer)
    requires
        position.well_formed(),
        latest_premium_fraction.well_formed(),
        decimals > 0,
        position.size.as_int() != 0 ==> quoted_notional > 0,
        position.size.as_int() != 0 ==> abs_int(
            latest_premium_fraction.as_int() - position.last_updated_premium_fraction.as_int(),
        ) <= u128::MAX as int,
        position.size.as_int() != 0 ==> abs_int(
            (latest_premium_fraction.as_int() - position.last_updated_premium_fraction.as_int())
                * position.size.as_int(),
        ) <= u128::MAX as int,
        position.size.as_int() != 0 ==> abs_int(
            spec_margin_ratio_numerator(*position, quoted_notional as int, latest_premium_fraction.as_int(), decimals as int),
        ) * decimals as int <= u128::MAX as int,
        position.size.as_int() != 0 ==> abs_int(
            spec_unrealized_pnl(position.direction, position.notional as int, quoted_notional as int)
                - spec_funding_payment(
                position.size.as_int(),
                position.last_updated_premium_fraction.as_int(),
                latest_premium_fraction.as_int(),
                decimals as int,
            ),
        ) <= u128::MAX as int,
        position.size.as_int() != 0 ==> abs_int(
            spec_unclamped_margin(
                position.margin as int,
                spec_unrealized_pnl(position.direction, position.notional as int, quoted_notional as int),
                spec_funding_payment(
                    position.size.as_int(),
                    position.last_updated_premium_fraction.as_int(),
                    latest_premium_fraction.as_int(),
                    decimals as int,
                ),
            ),
        ) <= u128::MAX as int,
    ensures
        position.size.as_int() == 0 ==> r.as_int() == 0,
        position.size.as_int() != 0 ==> r.as_int() == spec_margin_ratio(
            *position,
            quoted_notional as int,
            latest_premium_fraction.as_int(),
            decimals as int,
        ),
        r.well_formed(),
{
    if position.size.is_zero() {
        return Integer::zero();
    }
    let pnl_response: PositionUnrealizedPnlResponse = position_notional_unrealized_pnl(
        position,
        quoted_notional,
    );
    let remain: RemainMarginResponse = calc_remain_margin_with_funding_payment(
        position,
        pnl_response.unrealized_pnl,
        latest_premium_fraction,
        decimals,
    );
    let numerator: Integer = Integer::new_positive(remain.margin).checked_sub(
        &Integer::new_positive(remain.bad_debt),
    ).unwrap();
    proof {
        assert(numerator.as_int() == spec_margin_ratio_numerator(
            *position,
            quoted_notional as int,
            latest_premium_fraction.as_int(),
            decimals as int,
        ));
        assert(abs_int(numerator.as_int() * decimals as int) == abs_int(numerator.as_int())
            * decimals as int) by (nonlinear_arith)
            requires
                decimals as int >= 0,
        ;
    }
    let scaled: Integer = numerator.checked_mul(&Integer::new_positive(decimals)).unwrap();
    scaled.checked_div(&Integer::new_positive(pnl_response.position_notional)).unwrap()
}

/// The clamped margin net of bad debt that `margin_ratio` scales: equal to
/// the unclamped remaining margin whatever its sign.
pub open spec fn spec_margin_ratio_numerator(
    position: Position,
    quoted_notional: int,
    latest: int,
    decimals: int,
) -> int {
    let pnl = spec_unrealized_pnl(position.direction, position.notional as int, quoted_notional);
    let funding = spec_funding_payment(
        position.size.as_int(),
        position.last_updated_premium_fraction.as_int(),
        latest,
        decimals,
    );
    spec_unclamped_margin(position.margin as int, pnl, funding)
}

/// The margin ratio formula for a non-zero position.
pub open spec fn spec_margin_ratio(
    position: Position,
    quoted_notional: int,
    latest: int,
    decimals: int,
) -> int {
    div_towards_zero(
        spec_margin_ratio_numerator(position, quoted_notional, latest, decimals) * decimals,
        quoted_notional,
    )
}


/// The free-collateral formula over mathematical integers, for the chosen
/// (least favorable) PnL pair: `min(margin, margin + pnl)` less the margin
/// requirement on the relevant notional.
pub open spec fn spec_free_collateral(
    margin: int,
    size: int,
    recorded_notional: int,
    chosen_pnl: int,
    chosen_notional: int,
    vamm_initial_margin_ratio: int,
    vamm_decimals: int,
) -> int {
    let account_value = chosen_pnl + margin;
    let minimum_collateral = if chosen_pnl > 0 {
        margin
    } else {
        account_value
    };
    let margin_requirement = if size > 0 {
        (recorded_notional * vamm_initial_margin_ratio) / vamm_decimals
    } else {
        (chosen_notional * vamm_initial_margin_ratio) / vamm_decimals
    };
    minimum_collateral - margin_requirement
}

/// Which of the spot and twap PnL quotes free collateral uses: whichever
/// has the larger absolute magnitude — the one least favorable to the
/// trader; spot on a tie.
pub open spec fn spec_chooses_twap(spot_pnl: int, twap_pnl: int) -> bool {
    abs_int(twap_pnl) > abs_int(spot_pnl)
}

/// The withdrawable collateral of a position, given its unrealized PnL
/// under both the spot and the twap quote.  The result may be negative.
pub fn free_collateral(
    position: &Position,
    spot: &PositionUnrealizedPnlResponse,
    twap: &PositionUnrealizedPnlResponse,
    vamm_initial_margin_ratio: u128,
    vamm_decimals: u128,
) -> (r: Result<Integer, ContractError>)
    requires
        position.well_formed(),
        spot.unrealized_pnl.well_formed(),
        twap.unrealized_pnl.well_formed(),
        vamm_decimals > 0,
    ensures
        ({
            let chosen = if spec_chooses_twap(spot.unrealized_pnl.as_int(), twap.unrealized_pnl.as_int()) {
                *twap
            } else {
                *spot
            };
            let requirement_base = if position.size.as_int() > 0 {
                position.notional as int
            } else {
                chosen.position_notional as int
            };
            let value = spec_free_collateral(
                position.margin as int,
                position.size.as_int(),
                position.notional as int,
                chosen.unrealized_pnl.as_int(),
                chosen.position_notional as int,
                vamm_initial_margin_ratio as int,
                vamm_decimals as int,
            );
            abs_int(chosen.unrealized_pnl.as_int() + position.margin as int) <= u128::MAX as int
                && requirement_base * vamm_initial_margin_ratio as int <= u128::MAX as int
                && abs_int(value) <= u128::MAX as int ==> (r matches Ok(v) && v.as_int() == value
                && v.well_formed())
        }),
{
    let spot_abs: Integer = spot.unrealized_pnl.abs();
    let twap_abs: Integer = twap.unrealized_pnl.abs();
    let use_twap: bool = twap_abs.is_gt(&spot_abs);
    let chosen_pnl: Integer = if use_twap {
        twap.unrealized_pnl
    } else {
        spot.unrealized_pnl
    };
    let chosen_notional: u128 = if use_twap {
        twap.position_notional
    } else {
        spot.position_notional
    };

    let margin_int: Integer = Integer::new_positive(position.margin);
    let account_value: Integer = match chosen_pnl.checked_add(&margin_int) {
        Some(v) => v,
        None => {
            return Err(ContractError::Overflow);
        },
    };
    let minimum_collateral: Integer = if chosen_pnl.is_positive() {
        margin_int
    } else {
        account_value
    };

    let requirement_base: u128 = if position.size.is_positive() {
        position.notional
    } else {
        chosen_notional
    };
    let margin_requirement: u128 = match checked_mul_div(
        requirement_base,
        vamm_initial_margin_ratio,
        vamm_decimals,
    ) {
        Ok(v) => v,
        Err(e) => {
            return Err(e);
        },
    };
    match minimum_collateral.checked_sub(&Integer::new_positive(margin_requirement)) {
        Some(v) => Ok(v),
        None => Err(ContractError::Overflow),
    }
}


/// The intermediate values of a margin-ratio calculation stay within the
/// 128-bit range.
pub open spec fn spec_margin_ratio_feasible(
    position: Position,
    quoted_notional: int,
    latest: int,
    decimals: int,
) -> bool {
    let pnl = spec_unrealized_pnl(position.direction, position.notional as int, quoted_notional);
    let funding = spec_funding_payment(
        position.size.as_int(),
        position.last_updated_premium_fraction.as_int(),
        latest,
        decimals,
    );
    let numerator = spec_unclamped_margin(position.margin as int, pnl, funding);
    &&& abs_int(latest - position.last_updated_premium_fraction.as_int()) <= u128::MAX as int
    &&& abs_int((latest - position.last_updated_premium_fraction.as_int()) * position.size.as_int())
        <= u128::MAX as int
    &&& abs_int(pnl - funding) <= u128::MAX as int
    &&& abs_int(numerator) <= u128::MAX as int
    &&& abs_int(numerator * decimals) <= u128::MAX as int
}

/// The margin ratio, with the feasibility of every intermediate value
/// checked rather than required: the entry for callers that cannot
/// establish the bounds beforehand.
pub fn try_margin_ratio(
    position: &Position,
    quoted_notional: u128,
    latest_premium_fraction: Integer,
    decimals: u128,
) -> (r: Result<Integer, ContractError>)
    requires
        position.well_formed(),
        latest_premium_fraction.well_formed(),
        decimals > 0,
    ensures
        position.size.as_int() == 0 ==> (r matches Ok(v) && v.as_int() == 0 && v.well_formed()),
        position.size.as_int() != 0 && quoted_notional == 0 ==> r == Err::<
            Integer,
            ContractError,
        >(ContractError::DivideByZero),
        position.size.as_int() != 0 && quoted_notional > 0 && spec_margin_ratio_feasible(
            *position,
            quoted_notional as int,
            latest_premium_fraction.as_int(),
            decimals as int,
        ) ==> (r matches Ok(v) && v.as_int() == spec_margin_ratio(
            *position,
            quoted_notional as int,
            latest_premium_fraction.as_int(),
            decimals as int,
        ) && v.well_formed()),
        position.size.as_int() != 0 && quoted_notional > 0 && !spec_margin_ratio_feasible(
            *position,
            quoted_notional as int,
            latest_premium_fraction.as_int(),
            decimals as int,
        ) ==> r == Err::<Integer, ContractError>(ContractError::Overflow),
{
    if position.size.is_zero() {
        return Ok(Integer::zero());
    }
    if quoted_notional == 0 {
        return Err(ContractError::DivideByZero);
    }
    let diff: Integer = match latest_premium_fraction.checked_sub(
        &position.last_updated_premium_fraction,
    ) {
        Some(v) => v,
        None => {
            return Err(ContractError::Overflow);
        },
    };
    let product: Integer = match diff.checked_mul(&position.size) {
        Some(v) => v,
        None => {
            return Err(ContractError::Overflow);
        },
    };
    let funding: Integer = product.checked_div(&Integer::new_positive(decimals)).unwrap();
    let pnl: PositionUnrealizedPnlResponse = position_notional_unrealized_pnl(
        position,
        quoted_notional,
    );
    let after_delta: Integer = match pnl.unrealized_pnl.checked_sub(&funding) {
        Some(v) => v,
        None => {
            return Err(ContractError::Overflow);
        },
    };
    let numerator: Integer = match after_delta.checked_add(&Integer::new_positive(position.margin))
    {
        Some(v) => v,
        None => {
            return Err(ContractError::Overflow);
        },
    };
    let scaled: Integer = match numerator.checked_mul(&Integer::new_positive(decimals)) {
        Some(v) => v,
        None => {
            return Err(ContractError::Overflow);
        },
    };
    Ok(scaled.checked_div(&Integer::new_positive(quoted_notional)).unwrap())
}

} // verus!

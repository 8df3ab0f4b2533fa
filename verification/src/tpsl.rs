//! Take-profit / stop-loss trigger evaluation.
//!
//! A trigger fires not only when the closing price has crossed the raw
//! take-profit or stop-loss level but also when it is within a configured
//! spread band of it, so that a trigger cannot be griefed at the exact
//! boundary.  Batch evaluation simulates the price impact of earlier closes
//! on a local copy of the reserves.

use vstd::prelude::*;
use crate::error::ContractError;
use crate::margin::{checked_mul_div, spec_mul_div};
use crate::types::{Direction, Side, TmpReserveInfo};

verus! {

/// What a take-profit/stop-loss check decided.
#[derive(Clone, Copy, Debug, PartialEq, Eq, Structural)]
pub enum TpSlAction {
    NoAction,
    TriggerTakeProfit,
    TriggerStopLoss,
}

/// Absolute difference of two amounts.
pub open spec fn spec_abs_diff(a: int, b: int) -> int {
    if a >= b {
        a - b
    } else {
        b - a
    }
}

/// Whether the closing price has reached a take-profit level: for a long
/// it has risen past the level or into its spread band, for a short it has
/// fallen past the level or into the band.
pub open spec fn spec_tp_reached(close_price: int, take_profit: int, tp_spread: int, side: Side)
    -> bool {
    if side == Side::Buy {
        close_price > take_profit || spec_abs_diff(take_profit, close_price) <= tp_spread
    } else {
        take_profit > close_price || spec_abs_diff(close_price, take_profit) <= tp_spread
    }
}

/// Whether the closing price has reached a stop-loss level: the mirror of
/// the take-profit test.
pub open spec fn spec_sl_reached(close_price: int, stop_loss: int, sl_spread: int, side: Side)
    -> bool {
    if side == Side::Buy {
        stop_loss > close_price || spec_abs_diff(close_price, stop_loss) <= sl_spread
    } else {
        close_price > stop_loss || spec_abs_diff(stop_loss, close_price) <= sl_spread
    }
}

/// The trigger decision for one position, over mathematical integers: the
/// take-profit fires when the price has crossed its level or entered its
/// band, else the stop-loss likewise, else nothing.
pub open spec fn spec_check_tp_sl(
    close_price: int,
    take_profit: int,
    stop_loss: int,
    tp_spread: int,
    sl_spread: int,
    side: Side,
) -> TpSlAction {
    if spec_tp_reached(close_price, take_profit, tp_spread, side) {
        TpSlAction::TriggerTakeProfit
    } else if spec_sl_reached(close_price, stop_loss, sl_spread, side) {
        TpSlAction::TriggerStopLoss
    } else {
        TpSlAction::NoAction
    }
}

/// The spread bands around a take-profit and a stop-loss level:
/// `level * tp_sl_spread / decimals` each.
pub fn calculate_tp_sl_spread(
    tp_sl_spread: u128,
    take_profit: u128,
    stop_loss: u128,
    decimals: u128,
) -> (r: Result<(u128, u128), ContractError>)
    requires
        decimals > 0,
    ensures
        take_profit as int * tp_sl_spread as int <= u128::MAX as int && stop_loss as int
            * tp_sl_spread as int <= u128::MAX as int ==> (r matches Ok(v) && v.0 as int
            == spec_mul_div(take_profit as int, tp_sl_spread as int, decimals as int) && v.1 as int
            == spec_mul_div(stop_loss as int, tp_sl_spread as int, decimals as int)),
        take_profit as int * tp_sl_spread as int > u128::MAX as int || stop_loss as int
            * tp_sl_spread as int > u128::MAX as int ==> r is Err,
{
    let tp_spread: u128 = match checked_mul_div(take_profit, tp_sl_spread, decimals) {
        Ok(v) => v,
        Err(e) => {
            return Err(e);
        },
    };
    let sl_spread: u128 = match checked_mul_div(stop_loss, tp_sl_spread, decimals) {
        Ok(v) => v,
        Err(e) => {
            return Err(e);
        },
    };
    Ok((tp_spread, sl_spread))
}

/// Decides whether a position's take-profit or stop-loss has been reached
/// at the given closing price, spread bands included.
pub fn check_tp_sl_price(
    close_price: u128,
    take_profit: u128,
    stop_loss: u128,
    tp_spread: u128,
    sl_spread: u128,
    side: &Side,
) -> (r: TpSlAction)
    ensures
        r == spec_check_tp_sl(
            close_price as int,
            take_profit as int,
            stop_loss as int,
            tp_spread as int,
            sl_spread as int,
            *side,
        ),
{
    if tp_price_reached(close_price, take_profit, tp_spread, side) {
        TpSlAction::TriggerTakeProfit
    } else if sl_price_reached(close_price, stop_loss, sl_spread, side) {
        TpSlAction::TriggerStopLoss
    } else {
        TpSlAction::NoAction
    }
}

/// Whether the closing price has reached a take-profit level.
pub fn tp_price_reached(close_price: u128, take_profit: u128, tp_spread: u128, side: &Side) -> (r:
    bool)
    ensures
        r == spec_tp_reached(close_price as int, take_profit as int, tp_spread as int, *side),
{
    match side {
        Side::Buy => close_price > take_profit || abs_diff(take_profit, close_price) <= tp_spread,
        Side::Sell => take_profit > close_price || abs_diff(close_price, take_profit) <= tp_spread,
    }
}

/// Whether the closing price has reached a stop-loss level.
pub fn sl_price_reached(close_price: u128, stop_loss: u128, sl_spread: u128, side: &Side) -> (r:
    bool)
    ensures
        r == spec_sl_reached(close_price as int, stop_loss as int, sl_spread as int, *side),
{
    match side {
        Side::Buy => stop_loss > close_price || abs_diff(close_price, stop_loss) <= sl_spread,
        Side::Sell => close_price > stop_loss || abs_diff(stop_loss, close_price) <= sl_spread,
    }
}

/// Absolute difference of two unsigned amounts.
pub fn abs_diff(a: u128, b: u128) -> (r: u128)
    ensures
        r as int == spec_abs_diff(a as int, b as int),
{
    if a >= b {
        a - b
    } else {
        b - a
    }
}

/// Applies a simulated close of a position to a local copy of the
/// reserves: closing returns the position's base asset to the pool side it
/// came from and moves the quote asset the opposite way.  The copy is
/// untouched when either adjustment would leave a reserve out of range.
pub fn update_reserve(
    tmp_reserve: &mut TmpReserveInfo,
    quote_asset_amount: u128,
    base_asset_amount: u128,
    position_direction: &Direction,
) -> (r: Result<(), ContractError>)
    ensures
        position_direction == Direction::RemoveFromAmm ==> {
            &&& old(tmp_reserve).quote_asset_reserve + quote_asset_amount <= u128::MAX as int
                && base_asset_amount <= old(tmp_reserve).base_asset_reserve ==> (r is Ok
                && final(tmp_reserve).quote_asset_reserve == old(tmp_reserve).quote_asset_reserve
                + quote_asset_amount && final(tmp_reserve).base_asset_reserve == old(tmp_reserve).base_asset_reserve - base_asset_amount)
            &&& old(tmp_reserve).quote_asset_reserve + quote_asset_amount > u128::MAX as int
                || base_asset_amount > old(tmp_reserve).base_asset_reserve ==> (r is Err && *final(tmp_reserve) == *old(tmp_reserve))
        },
        position_direction == Direction::AddToAmm ==> {
            &&& old(tmp_reserve).base_asset_reserve + base_asset_amount <= u128::MAX as int
                && quote_asset_amount <= old(tmp_reserve).quote_asset_reserve ==> (r is Ok
                && final(tmp_reserve).base_asset_reserve == old(tmp_reserve).base_asset_reserve
                + base_asset_amount && final(tmp_reserve).quote_asset_reserve == old(tmp_reserve).quote_asset_reserve - quote_asset_amount)
            &&& old(tmp_reserve).base_asset_reserve + base_asset_amount > u128::MAX as int
                || quote_asset_amount > old(tmp_reserve).quote_asset_reserve ==> (r is Err && *final(tmp_reserve) == *old(tmp_reserve))
        },
{
    match position_direction {
        Direction::RemoveFromAmm => {
            let new_quote: u128 = match tmp_reserve.quote_asset_reserve.checked_add(
                quote_asset_amount,
            ) {
                Some(v) => v,
                None => {
                    return Err(ContractError::Overflow);
                },
            };
            let new_base: u128 = match tmp_reserve.base_asset_reserve.checked_sub(
                base_asset_amount,
            ) {
                Some(v) => v,
                None => {
                    return Err(ContractError::Overflow);
                },
            };
            tmp_reserve.quote_asset_reserve = new_quote;
            tmp_reserve.base_asset_reserve = new_base;
            Ok(())
        },
        Direction::AddToAmm => {
            let new_base: u128 = match tmp_reserve.base_asset_reserve.checked_add(
                base_asset_amount,
            ) {
                Some(v) => v,
                None => {
                    return Err(ContractError::Overflow);
                },
            };
            let new_quote: u128 = match tmp_reserve.quote_asset_reserve.checked_sub(
                quote_asset_amount,
            ) {
                Some(v) => v,
                None => {
                    return Err(ContractError::Overflow);
                },
            };
            tmp_reserve.base_asset_reserve = new_base;
            tmp_reserve.quote_asset_reserve = new_quote;
            Ok(())
        },
    }
}

} // verus!

//! The asynchronous actions the engine hands back to the host runtime.
//!
//! The engine never performs an inter-contract call itself: a lifecycle
//! operation validates, persists its pending descriptor, and returns one of
//! these actions for the host to issue.  The outcome comes back through the
//! continuation dispatcher, tagged with the action's reply kind.

use vstd::prelude::*;
use crate::error::ReplyKind;
use crate::integer::Integer;
use crate::pending::PendingSwaps;
use crate::types::{Direction, Position, Side, TmpSwapInfo, direction_to_side, side_to_direction};

verus! {

/// An asynchronous call to the vAMM, to be issued by the host.
#[derive(Clone, Debug, PartialEq, Eq)]
pub enum SwapAction {
    SwapInput {
        vamm: String,
        direction: Direction,
        position_id: u64,
        quote_asset_amount: u128,
        base_asset_limit: u128,
        can_go_over_fluctuation: bool,
        reply_id: ReplyKind,
    },
    SwapOutput {
        vamm: String,
        direction: Direction,
        position_id: u64,
        base_asset_amount: u128,
        quote_asset_limit: u128,
        reply_id: ReplyKind,
    },
    SettleFunding { vamm: String, reply_id: ReplyKind },
}

/// A quote-bounded swap request.
pub fn swap_input(
    vamm: &String,
    side: &Side,
    position_id: u64,
    open_notional: u128,
    base_asset_limit: u128,
    can_go_over_fluctuation: bool,
    id: ReplyKind,
) -> (r: SwapAction)
    ensures
        r == (SwapAction::SwapInput {
            vamm: *vamm,
            direction: (match side {
                Side::Buy => Direction::AddToAmm,
                Side::Sell => Direction::RemoveFromAmm,
            }),
            position_id,
            quote_asset_amount: open_notional,
            base_asset_limit,
            can_go_over_fluctuation,
            reply_id: id,
        }),
{
    SwapAction::SwapInput {
        vamm: vamm.clone(),
        direction: side_to_direction(side),
        position_id,
        quote_asset_amount: open_notional,
        base_asset_limit,
        can_go_over_fluctuation,
        reply_id: id,
    }
}

/// A size-bounded swap request.
pub fn swap_output(
    vamm: &String,
    side: &Side,
    position_id: u64,
    base_asset_amount: u128,
    quote_asset_limit: u128,
    id: ReplyKind,
) -> (r: SwapAction)
    ensures
        r == (SwapAction::SwapOutput {
            vamm: *vamm,
            direction: (match side {
                Side::Buy => Direction::AddToAmm,
                Side::Sell => Direction::RemoveFromAmm,
            }),
            position_id,
            base_asset_amount,
            quote_asset_limit,
            reply_id: id,
        }),
{
    SwapAction::SwapOutput {
        vamm: vamm.clone(),
        direction: side_to_direction(side),
        position_id,
        base_asset_amount,
        quote_asset_limit,
        reply_id: id,
    }
}

/// The swap request that opens a position: quote-bounded, not allowed past
/// the fluctuation limit.
pub fn internal_open_position(
    vamm: &String,
    side: &Side,
    position_id: u64,
    open_notional: u128,
    base_asset_limit: u128,
) -> (r: SwapAction)
    ensures
        r == (SwapAction::SwapInput {
            vamm: *vamm,
            direction: (match side {
                Side::Buy => Direction::AddToAmm,
                Side::Sell => Direction::RemoveFromAmm,
            }),
            position_id,
            quote_asset_amount: open_notional,
            base_asset_limit,
            can_go_over_fluctuation: false,
            reply_id: ReplyKind::IncreasePosition,
        }),
{
    swap_input(vamm, side, position_id, open_notional, base_asset_limit, false,
        ReplyKind::IncreasePosition)
}

/// The descriptor written when a position is closed in full.
pub open spec fn spec_close_descriptor(position: Position) -> TmpSwapInfo {
    TmpSwapInfo {
        position_id: position.position_id,
        vamm: position.vamm,
        pair: position.pair,
        trader: position.trader,
        side: (match position.direction {
            Direction::AddToAmm => Side::Buy,
            Direction::RemoveFromAmm => Side::Sell,
        }),
        margin_amount: position.size.value,
        leverage: 0,
        open_notional: position.notional,
        position_notional: 0,
        unrealized_pnl: Integer { negative: false, value: 0 },
        margin_to_vault: Integer { negative: false, value: 0 },
        take_profit: position.take_profit,
        stop_loss: position.stop_loss,
        spread_fee: position.spread_fee,
        toll_fee: position.toll_fee,
    }
}

/// Persists the full-close descriptor for a position and returns the
/// size-bounded swap that closes it: a long is closed by selling its base
/// asset, a short by buying it back.
pub fn internal_close_position(
    pending: &mut PendingSwaps,
    position: &Position,
    quote_asset_limit: u128,
    id: ReplyKind,
) -> (r: SwapAction)
    requires
        old(pending).well_formed(),
        position.well_formed(),
    ensures
        final(pending).well_formed(),
        forall|t: TmpSwapInfo|
            final(pending).view().contains(t) <==> (t == spec_close_descriptor(*position) || (old(
                pending,
            ).view().contains(t) && t.position_id != position.position_id)),
        r == (SwapAction::SwapOutput {
            vamm: position.vamm,
            direction: position.direction,
            position_id: position.position_id,
            base_asset_amount: position.size.value,
            quote_asset_limit,
            reply_id: id,
        }),
{
    let side: Side = direction_to_side(&position.direction);
    let descriptor: TmpSwapInfo = TmpSwapInfo {
        position_id: position.position_id,
        vamm: position.vamm.clone(),
        pair: position.pair.clone(),
        trader: position.trader.clone(),
        side,
        margin_amount: position.size.value,
        leverage: 0,
        open_notional: position.notional,
        position_notional: 0,
        unrealized_pnl: Integer::zero(),
        margin_to_vault: Integer::zero(),
        take_profit: position.take_profit,
        stop_loss: position.stop_loss,
        spread_fee: position.spread_fee,
        toll_fee: position.toll_fee,
    };
    pending.store_tmp_swap(&descriptor);
    swap_output(
        &position.vamm,
        &side,
        position.position_id,
        position.size.value,
        quote_asset_limit,
        id,
    )
}

} // verus!

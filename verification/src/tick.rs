//! Price-tick scans and take-profit/stop-loss triggering.
//!
//! Positions are secondarily grouped by `(side, entry price)` ticks.  The
//! batch trigger walks ticks in the order that visits the most executable
//! prices first — descending when looking for take-profits on longs or
//! stop-losses on shorts, ascending otherwise — and simulates each close's
//! price impact on a local copy of the reserves, so later positions in the
//! batch see consistent quotes before any close is confirmed.

use vstd::prelude::*;
use crate::amm::{ceil_div_int, pool_k};
use crate::error::ContractError;
use crate::integer::Integer;
use crate::margin::{checked_mul_div, spec_mul_div};
use crate::store::{Order, PositionStore, spec_effective_limit, spec_tick_count};
use crate::tpsl::{TpSlAction, calculate_tp_sl_spread, update_reserve};
use crate::types::{
    Direction, Position, Side, State, TickResponse, TicksResponse, TmpReserveInfo, UserAction,
};

verus! {

/// The tick for one `(side, entry price)` pair.
pub fn query_tick(store: &PositionStore, side: Side, entry_price: u128) -> (r: TickResponse)
    ensures
        r.entry_price == entry_price,
        r.total_positions == spec_tick_count(store.view(), side, entry_price),
{
    TickResponse { entry_price, total_positions: store.tick_count(side, entry_price) }
}

/// Whether the scan at `current` may visit `candidate` next, in the given
/// direction, starting strictly beyond `start_after`.
pub open spec fn spec_tick_in_range(
    candidate: u128,
    current: Option<u128>,
    start_after: Option<u128>,
    ascending: bool,
) -> bool {
    &&& match current {
        Option::Some(c) => if ascending {
            candidate > c
        } else {
            candidate < c
        },
        Option::None => true,
    }
    &&& match start_after {
        Option::Some(s) => if ascending {
            candidate > s
        } else {
            candidate < s
        },
        Option::None => true,
    }
}

/// A page of occupied ticks for one side, ordered by price.  Every
/// returned tick is occupied and carries its exact count; prices are
/// strictly monotone in scan order and lie strictly beyond `start_after`.
pub fn query_ticks(
    store: &PositionStore,
    side: Side,
    start_after: Option<u128>,
    limit: Option<u32>,
    order_by: Option<Order>,
) -> (r: TicksResponse)
    ensures
        r.ticks@.len() <= spec_effective_limit(limit),
        forall|k: int|
            0 <= k < r.ticks@.len() ==> (#[trigger] r.ticks@[k]).total_positions == spec_tick_count(
                store.view(),
                side,
                r.ticks@[k].entry_price,
            ) && r.ticks@[k].total_positions > 0,
        forall|k: int|
            0 <= k < r.ticks@.len() ==> spec_tick_in_range(
                (#[trigger] r.ticks@[k]).entry_price,
                if k == 0 {
                    Option::None
                } else {
                    Option::Some(r.ticks@[k - 1].entry_price)
                },
                start_after,
                order_by == Some(Order::Ascending),
            ),
        r.ticks@.len() < spec_effective_limit(limit) ==> (forall|q: u128|
            spec_tick_count(store.view(), side, q) > 0 && spec_tick_in_range(
                q,
                Option::None,
                start_after,
                order_by == Some(Order::Ascending),
            ) ==> spec_ticks_contain(r.ticks@, q)),
        r.ticks@.len() > 0 ==> (forall|q: u128|
            spec_tick_count(store.view(), side, q) > 0 && spec_tick_in_range(
                q,
                Option::None,
                start_after,
                order_by == Some(Order::Ascending),
            ) && spec_at_or_before(
                q,
                r.ticks@.last().entry_price,
                order_by == Some(Order::Ascending),
            ) ==> spec_ticks_contain(r.ticks@, q)),
{
    let ascending: bool = match order_by {
        Some(Order::Ascending) => true,
        _ => false,
    };
    let given: u32 = match limit {
        Some(l) => l,
        None => crate::store::DEFAULT_LIMIT,
    };
    let requested: u32 = if given == 0 {
        crate::store::DEFAULT_LIMIT
    } else {
        given
    };
    let limit_eff: usize = if requested > crate::store::MAX_LIMIT {
        crate::store::MAX_LIMIT as usize
    } else {
        requested as usize
    };
    let mut ticks: Vec<TickResponse> = Vec::new();
    let mut current: Option<u128> = None;
    loop
        invariant
            ticks@.len() <= limit_eff,
            limit_eff as nat == spec_effective_limit(limit),
            forall|k: int|
                0 <= k < ticks@.len() ==> (#[trigger] ticks@[k]).total_positions
                    == spec_tick_count(store.view(), side, ticks@[k].entry_price)
                    && ticks@[k].total_positions > 0,
            forall|k: int|
                0 <= k < ticks@.len() ==> spec_tick_in_range(
                    (#[trigger] ticks@[k]).entry_price,
                    if k == 0 {
                        Option::None
                    } else {
                        Option::Some(ticks@[k - 1].entry_price)
                    },
                    start_after,
                    ascending,
                ),
            ascending == (order_by == Some(Order::Ascending)),
            current is Some ==> ticks@.len() > 0 && ticks@.last().entry_price == current->0,
            current is None ==> ticks@.len() == 0,
            forall|q: u128|
                spec_tick_count(store.view(), side, q) > 0 && spec_tick_in_range(
                    q,
                    Option::None,
                    start_after,
                    ascending,
                ) && (match current {
                    Option::Some(c) => spec_at_or_before(q, c, ascending),
                    Option::None => false,
                }) ==> spec_ticks_contain(ticks@, q),
        decreases limit_eff - ticks@.len(),
    {
        if ticks.len() >= limit_eff {
            return TicksResponse { ticks };
        }
        let ghost previous: Option<u128> = current;
        let ghost visited: Seq<TickResponse> = ticks@;
        match next_tick(store, side, &current, &start_after, ascending) {
            Some(price) => {
                let count: u64 = store.tick_count(side, price);
                ticks.push(TickResponse { entry_price: price, total_positions: count });
                current = Some(price);
                proof {
                    assert forall|q: u128|
                        spec_tick_count(store.view(), side, q) > 0 && spec_tick_in_range(
                            q,
                            Option::None,
                            start_after,
                            ascending,
                        ) && spec_at_or_before(q, price, ascending) implies spec_ticks_contain(
                        ticks@,
                        q,
                    ) by {
                        if q == price {
                            assert(ticks@[ticks@.len() - 1].entry_price == q);
                        } else {
                            lemma_occupied_tick_has_position(store.view(), side, q);
                            let i = choose|i: int|
                                0 <= i < store.view().len() && (#[trigger] store.view()[i]).side
                                    == side && store.view()[i].entry_price == q;
                            if spec_tick_in_range(q, previous, start_after, ascending) {
                                // the scan picked the nearest qualifying
                                // price, so none lies strictly between
                                assert(spec_at_or_before(price, q, ascending));
                            } else {
                                // already visited: covered before this step
                                assert(spec_ticks_contain(visited, q));
                                let k = choose|k: int|
                                    0 <= k < visited.len() && (#[trigger] visited[k]).entry_price
                                        == q;
                                assert(ticks@[k].entry_price == q);
                            }
                        }
                    }
                }
            },
            None => {
                proof {
                    assert forall|q: u128|
                        spec_tick_count(store.view(), side, q) > 0 && spec_tick_in_range(
                            q,
                            Option::None,
                            start_after,
                            ascending,
                        ) implies spec_ticks_contain(ticks@, q) by {
                        lemma_occupied_tick_has_position(store.view(), side, q);
                        let i = choose|i: int|
                            0 <= i < store.view().len() && (#[trigger] store.view()[i]).side
                                == side && store.view()[i].entry_price == q;
                        assert(!spec_tick_in_range(q, previous, start_after, ascending));
                    }
                }
                return TicksResponse { ticks };
            },
        }
    }
}

/// Whether a candidate price is at or before another in the scan
/// direction.
pub open spec fn spec_at_or_before(a: u128, b: u128, ascending: bool) -> bool {
    if ascending {
        a <= b
    } else {
        a >= b
    }
}

/// The next occupied tick strictly beyond the scan position, if any: the
/// least such price on an ascending scan, the greatest on a descending
/// one.
fn next_tick(
    store: &PositionStore,
    side: Side,
    current: &Option<u128>,
    start_after: &Option<u128>,
    ascending: bool,
) -> (r: Option<u128>)
    ensures
        r matches Some(price) ==> spec_tick_count(store.view(), side, price) > 0
            && spec_tick_in_range(price, *current, *start_after, ascending),
        r matches Some(price) ==> forall|i: int|
            0 <= i < store.view().len() && (#[trigger] store.view()[i]).side == side
                && spec_tick_in_range(
                store.view()[i].entry_price,
                *current,
                *start_after,
                ascending,
            ) ==> spec_at_or_before(price, store.view()[i].entry_price, ascending),
        r is None ==> forall|i: int|
            0 <= i < store.view().len() && (#[trigger] store.view()[i]).side == side
                ==> !spec_tick_in_range(
                store.view()[i].entry_price,
                *current,
                *start_after,
                ascending,
            ),
{
    let n: usize = store.len();
    let mut best: Option<u128> = None;
    let mut i: usize = 0;
    while i < n
        invariant
            n == store.view().len(),
            i <= n,
            best matches Some(b) ==> spec_tick_count(store.view(), side, b) > 0
                && spec_tick_in_range(b, *current, *start_after, ascending),
            best matches Some(b) ==> forall|k: int|
                0 <= k < i && (#[trigger] store.view()[k]).side == side && spec_tick_in_range(
                    store.view()[k].entry_price,
                    *current,
                    *start_after,
                    ascending,
                ) ==> spec_at_or_before(b, store.view()[k].entry_price, ascending),
            best is None ==> forall|k: int|
                0 <= k < i && (#[trigger] store.view()[k]).side == side
                    ==> !spec_tick_in_range(
                    store.view()[k].entry_price,
                    *current,
                    *start_after,
                    ascending,
                ),
        decreases n - i,
    {
        let p: &Position = &store.positions[i];
        if p.side == side {
            let price: u128 = p.entry_price;
            let mut in_range: bool = true;
            match current {
                Some(c) => {
                    if ascending {
                        if !(price > *c) {
                            in_range = false;
                        }
                    } else {
                        if !(price < *c) {
                            in_range = false;
                        }
                    }
                },
                None => {},
            }
            match start_after {
                Some(s) => {
                    if ascending {
                        if !(price > *s) {
                            in_range = false;
                        }
                    } else {
                        if !(price < *s) {
                            in_range = false;
                        }
                    }
                },
                None => {},
            }
            proof {
                assert(in_range == spec_tick_in_range(
                    store.view()[i as int].entry_price,
                    *current,
                    *start_after,
                    ascending,
                ));
            }
            if in_range {
                let better: bool = match &best {
                    Some(b) => if ascending {
                        price < *b
                    } else {
                        price > *b
                    },
                    None => true,
                };
                if better {
                    proof {
                        let ghost s = store.view();
                        assert(s.contains(s[i as int]));
                        lemma_contained_tick_occupied(s, side, price, i as int);
                    }
                    best = Some(price);
                }
            }
        }
        i = i + 1;
    }
    best
}

/// Whether a page of ticks holds the given price.
pub open spec fn spec_ticks_contain(ticks: Seq<TickResponse>, price: u128) -> bool {
    exists|k: int| 0 <= k < ticks.len() && (#[trigger] ticks[k]).entry_price == price
}

/// An occupied tick is witnessed by some stored position.
proof fn lemma_occupied_tick_has_position(s: Seq<Position>, side: Side, price: u128)
    requires
        spec_tick_count(s, side, price) > 0,
    ensures
        exists|i: int|
            0 <= i < s.len() && (#[trigger] s[i]).side == side && s[i].entry_price == price,
{
    let pred = |p: Position| p.side == side && p.entry_price == price;
    let f = s.filter(pred);
    s.lemma_filter_pred(pred, 0);
    assert(f.contains(f[0]));
    s.lemma_filter_contains_rev(pred, f[0]);
    let i = choose|i: int| 0 <= i < s.len() && s[i] == f[0];
    assert(s[i].side == side && s[i].entry_price == price);
}

/// A tick holding a stored position has a positive count.
proof fn lemma_contained_tick_occupied(s: Seq<Position>, side: Side, price: u128, i: int)
    requires
        0 <= i < s.len(),
        s[i].side == side,
        s[i].entry_price == price,
    ensures
        spec_tick_count(s, side, price) > 0,
{
    let pred = |p: Position| p.side == side && p.entry_price == price;
    s.lemma_filter_contains(pred, i);
    let f = s.filter(pred);
    assert(f.contains(s[i]));
}

/// The close price a position would see at the given reserves: the quoted
/// closing notional per base unit, scaled by `decimals`.
pub open spec fn spec_close_quote(p: Position, reserve: TmpReserveInfo) -> int {
    let k = pool_k(reserve.quote_asset_reserve, reserve.base_asset_reserve);
    if p.direction == Direction::AddToAmm {
        reserve.quote_asset_reserve - ceil_div_int(
            k,
            reserve.base_asset_reserve + p.size.value,
        )
    } else {
        ceil_div_int(k, reserve.base_asset_reserve - p.size.value) - reserve.quote_asset_reserve
    }
}

/// The trigger decision for a position at the given reserves: an unset
/// level cannot fire, and a reached take-profit takes precedence over the
/// stop-loss.
pub open spec fn spec_position_action(
    p: Position,
    reserve: TmpReserveInfo,
    decimals: u128,
    tp_sl_spread: u128,
) -> TpSlAction {
    let quote = spec_close_quote(p, reserve);
    let close_price = spec_mul_div(quote, decimals as int, p.size.value as int);
    let tp = spec_or_zero(p.take_profit);
    let sl = spec_or_zero(p.stop_loss);
    let tp_spread = spec_mul_div(tp, tp_sl_spread as int, decimals as int);
    let sl_spread = spec_mul_div(sl, tp_sl_spread as int, decimals as int);
    if p.take_profit is Some && crate::tpsl::spec_tp_reached(close_price, tp, tp_spread, p.side) {
        TpSlAction::TriggerTakeProfit
    } else if p.stop_loss is Some && crate::tpsl::spec_sl_reached(
        close_price,
        sl,
        sl_spread,
        p.side,
    ) {
        TpSlAction::TriggerStopLoss
    } else {
        TpSlAction::NoAction
    }
}

/// Whether the trigger check fires for a position at the given reserves.
pub open spec fn spec_trigger_fires(
    p: Position,
    reserve: TmpReserveInfo,
    decimals: u128,
    tp_sl_spread: u128,
    do_tp: bool,
) -> bool {
    let action = spec_position_action(p, reserve, decimals, tp_sl_spread);
    if do_tp {
        action == TpSlAction::TriggerTakeProfit
    } else {
        action == TpSlAction::TriggerStopLoss
    }
}

/// An optional level, defaulting to zero.
pub open spec fn spec_or_zero(v: Option<u128>) -> int {
    match v {
        Option::Some(x) => x as int,
        Option::None => 0,
    }
}

/// Evaluates one position against the reserves and decides whether its
/// take-profit (or stop-loss) has been reached.
fn evaluate_position(
    p: &Position,
    reserve: &TmpReserveInfo,
    decimals: u128,
    tp_sl_spread: u128,
    do_tp: bool,
) -> (r: Result<(bool, u128, u128), ContractError>)
    requires
        p.well_formed(),
        decimals > 0,
    ensures
        r matches Ok(v) ==> spec_evaluate_ok(*p, *reserve, decimals, tp_sl_spread) && v.0
            == spec_trigger_fires(*p, *reserve, decimals, tp_sl_spread, do_tp) && v.1 as int
            == spec_close_quote(*p, *reserve) && v.2 == p.size.value,
        r is Err ==> !spec_evaluate_ok(*p, *reserve, decimals, tp_sl_spread),
{
    if p.size.value == 0 {
        return Err(ContractError::PositionIsZero);
    }
    if reserve.quote_asset_reserve == 0 || reserve.base_asset_reserve == 0 {
        return Err(ContractError::DivideByZero);
    }
    match reserve.quote_asset_reserve.checked_mul(reserve.base_asset_reserve) {
        Some(_) => {},
        None => {
            return Err(ContractError::Overflow);
        },
    }
    let quote: u128 = match crate::amm::get_output_price_with_reserves(
        &p.direction,
        p.size.value,
        reserve.quote_asset_reserve,
        reserve.base_asset_reserve,
    ) {
        Ok(v) => v,
        Err(e) => {
            return Err(e);
        },
    };
    let close_price: u128 = match checked_mul_div(quote, decimals, p.size.value) {
        Ok(v) => v,
        Err(e) => {
            return Err(e);
        },
    };
    let take_profit: u128 = match p.take_profit {
        Some(v) => v,
        None => 0,
    };
    let stop_loss: u128 = match p.stop_loss {
        Some(v) => v,
        None => 0,
    };
    let spreads: (u128, u128) = match calculate_tp_sl_spread(
        tp_sl_spread,
        take_profit,
        stop_loss,
        decimals,
    ) {
        Ok(v) => v,
        Err(e) => {
            return Err(e);
        },
    };
    let action: TpSlAction = if p.take_profit.is_some() && crate::tpsl::tp_price_reached(
        close_price,
        take_profit,
        spreads.0,
        &p.side,
    ) {
        TpSlAction::TriggerTakeProfit
    } else if p.stop_loss.is_some() && crate::tpsl::sl_price_reached(
        close_price,
        stop_loss,
        spreads.1,
        &p.side,
    ) {
        TpSlAction::TriggerStopLoss
    } else {
        TpSlAction::NoAction
    };
    let fires: bool = if do_tp {
        matches!(action, TpSlAction::TriggerTakeProfit)
    } else {
        matches!(action, TpSlAction::TriggerStopLoss)
    };
    Ok((fires, quote, p.size.value))
}

/// The feasibility conditions of evaluating one position: a non-zero
/// size, positive reserves, and every intermediate product in range.
pub open spec fn spec_evaluate_ok(
    p: Position,
    reserve: TmpReserveInfo,
    decimals: u128,
    tp_sl_spread: u128,
) -> bool {
    let quote = spec_close_quote(p, reserve);
    &&& p.size.value != 0
    &&& reserve.quote_asset_reserve > 0
    &&& reserve.base_asset_reserve > 0
    &&& pool_k(reserve.quote_asset_reserve, reserve.base_asset_reserve) <= u128::MAX as int
    &&& (p.direction == Direction::RemoveFromAmm ==> p.size.value
        < reserve.base_asset_reserve)
    &&& (p.direction == Direction::AddToAmm ==> reserve.base_asset_reserve + p.size.value
        <= u128::MAX as int)
    &&& quote * decimals as int <= u128::MAX as int
    &&& spec_or_zero(p.take_profit) * tp_sl_spread as int <= u128::MAX as int
    &&& spec_or_zero(p.stop_loss) * tp_sl_spread as int <= u128::MAX as int
}

/// The reserves after simulating the close of a position, when both
/// adjustments stay in range; the reserves are kept otherwise.
pub open spec fn spec_after_close(p: Position, reserve: TmpReserveInfo, quote: int)
    -> TmpReserveInfo {
    if p.direction == Direction::RemoveFromAmm {
        if reserve.quote_asset_reserve + quote <= u128::MAX as int && p.size.value
            <= reserve.base_asset_reserve {
            TmpReserveInfo {
                quote_asset_reserve: (reserve.quote_asset_reserve + quote) as u128,
                base_asset_reserve: (reserve.base_asset_reserve - p.size.value) as u128,
            }
        } else {
            reserve
        }
    } else {
        if reserve.base_asset_reserve + p.size.value <= u128::MAX as int && quote
            <= reserve.quote_asset_reserve {
            TmpReserveInfo {
                quote_asset_reserve: (reserve.quote_asset_reserve - quote) as u128,
                base_asset_reserve: (reserve.base_asset_reserve + p.size.value) as u128,
            }
        } else {
            reserve
        }
    }
}

/// The identifiers the batch trigger closes, walking the candidates in
/// order: a candidate whose check fires is recorded and its close is
/// simulated onto the reserves; a candidate that cannot be evaluated
/// aborts the whole batch.
pub open spec fn spec_batch_from(
    cands: Seq<Position>,
    i: int,
    reserve: TmpReserveInfo,
    decimals: u128,
    tp_sl_spread: u128,
    do_tp: bool,
) -> Result<Seq<u64>, ContractError>
    decreases cands.len() - i,
{
    if i < 0 || i >= cands.len() {
        Ok(Seq::empty())
    } else {
        let p = cands[i];
        if !spec_evaluate_ok(p, reserve, decimals, tp_sl_spread) {
            Err(ContractError::Overflow)
        } else if spec_trigger_fires(p, reserve, decimals, tp_sl_spread, do_tp) {
            let quote = spec_close_quote(p, reserve);
            let next = spec_after_close(p, reserve, quote);
            match spec_batch_from(cands, i + 1, next, decimals, tp_sl_spread, do_tp) {
                Ok(rest) => Ok(seq![p.position_id] + rest),
                Err(e) => Err(e),
            }
        } else {
            spec_batch_from(cands, i + 1, reserve, decimals, tp_sl_spread, do_tp)
        }
    }
}

/// Decides which resting positions a batch trigger closes.  The
/// candidates must be supplied in tick order; each triggered close is
/// simulated locally onto the reserves so later candidates see its price
/// impact.  Returns the position identifiers to close, in visit order.
pub fn trigger_mutiple_tp_sl(
    state: &State,
    vamm_is_open: bool,
    candidates: &Vec<Position>,
    reserve: &TmpReserveInfo,
    decimals: u128,
    tp_sl_spread: u128,
    do_tp: bool,
) -> (r: Result<Vec<u64>, ContractError>)
    requires
        decimals > 0,
        forall|k: int| 0 <= k < candidates@.len() ==> (#[trigger] candidates@[k]).well_formed(),
    ensures
        !vamm_is_open ==> r == Err::<Vec<u64>, ContractError>(ContractError::VammNotOpen),
        vamm_is_open && crate::guard::spec_action_blocked(state.pause, UserAction::TriggerTpSl)
            ==> r == Err::<Vec<u64>, ContractError>(ContractError::Paused),
        vamm_is_open && !crate::guard::spec_action_blocked(state.pause, UserAction::TriggerTpSl)
            ==> (match spec_batch_from(candidates@, 0, *reserve, decimals, tp_sl_spread, do_tp) {
                Ok(ids) => r matches Ok(v) && v@ == ids,
                Err(e) => r == Err::<Vec<u64>, ContractError>(e),
            }),
{
    if !vamm_is_open {
        return Err(ContractError::VammNotOpen);
    }
    match crate::guard::require_not_paused(state.pause, UserAction::TriggerTpSl) {
        Ok(_) => {},
        Err(e) => {
            return Err(e);
        },
    }
    batch_step(candidates, 0, *reserve, decimals, tp_sl_spread, do_tp)
}

/// One step of the batch walk, recursing over the remaining candidates.
fn batch_step(
    candidates: &Vec<Position>,
    i: usize,
    reserve: TmpReserveInfo,
    decimals: u128,
    tp_sl_spread: u128,
    do_tp: bool,
) -> (r: Result<Vec<u64>, ContractError>)
    requires
        decimals > 0,
        i <= candidates@.len(),
        forall|k: int| 0 <= k < candidates@.len() ==> (#[trigger] candidates@[k]).well_formed(),
    ensures
        (match spec_batch_from(candidates@, i as int, reserve, decimals, tp_sl_spread, do_tp) {
            Ok(ids) => r matches Ok(v) && v@ == ids,
            Err(e) => r == Err::<Vec<u64>, ContractError>(e),
        }),
    decreases candidates@.len() - i,
{
    if i == candidates.len() {
        let empty: Vec<u64> = Vec::new();
        proof {
            assert(empty@ =~= Seq::<u64>::empty());
        }
        return Ok(empty);
    }
    let p: &Position = &candidates[i];
    let evaluated: (bool, u128, u128) = match evaluate_position(
        p,
        &reserve,
        decimals,
        tp_sl_spread,
        do_tp,
    ) {
        Ok(v) => v,
        Err(_) => {
            return Err(ContractError::Overflow);
        },
    };
    if evaluated.0 {
        let mut next_reserve: TmpReserveInfo = reserve;
        let _ = update_reserve(&mut next_reserve, evaluated.1, evaluated.2, &p.direction);
        proof {
            assert(next_reserve == spec_after_close(*p, reserve, evaluated.1 as int));
        }
        let mut rest: Vec<u64> = match batch_step(
            candidates,
            i + 1,
            next_reserve,
            decimals,
            tp_sl_spread,
            do_tp,
        ) {
            Ok(v) => v,
            Err(e) => {
                return Err(e);
            },
        };
        rest.insert(0, p.position_id);
        proof {
            assert(rest@ =~= seq![p.position_id] + rest@.drop_first());
        }
        Ok(rest)
    } else {
        batch_step(candidates, i + 1, reserve, decimals, tp_sl_spread, do_tp)
    }
}

/// Whether any candidate's check fires at the given reserves, without
/// simulating closes between checks.
pub open spec fn spec_any_triggerable(
    cands: Seq<Position>,
    reserve: TmpReserveInfo,
    decimals: u128,
    tp_sl_spread: u128,
    do_tp: bool,
) -> bool {
    exists|k: int|
        0 <= k < cands.len() && spec_evaluate_ok(#[trigger] cands[k], reserve, decimals, tp_sl_spread)
            && spec_trigger_fires(cands[k], reserve, decimals, tp_sl_spread, do_tp)
}

/// Whether any candidate position is currently triggerable.  Candidates
/// that cannot be evaluated are skipped.
pub fn query_position_is_tpsl(
    candidates: &Vec<Position>,
    reserve: &TmpReserveInfo,
    decimals: u128,
    tp_sl_spread: u128,
    do_tp: bool,
) -> (r: crate::types::PositionTpSlResponse)
    requires
        decimals > 0,
        forall|k: int| 0 <= k < candidates@.len() ==> (#[trigger] candidates@[k]).well_formed(),
    ensures
        r.is_tpsl == spec_any_triggerable(candidates@, *reserve, decimals, tp_sl_spread, do_tp),
{
    let n: usize = candidates.len();
    let mut i: usize = 0;
    while i < n
        invariant
            n == candidates@.len(),
            i <= n,
            decimals > 0,
            forall|k: int| 0 <= k < candidates@.len() ==> (#[trigger] candidates@[k]).well_formed(),
            forall|k: int|
                0 <= k < i ==> !(spec_evaluate_ok(
                    #[trigger] candidates@[k],
                    *reserve,
                    decimals,
                    tp_sl_spread,
                ) && spec_trigger_fires(candidates@[k], *reserve, decimals, tp_sl_spread, do_tp)),
        decreases n - i,
    {
        match evaluate_position(&candidates[i], reserve, decimals, tp_sl_spread, do_tp) {
            Ok(v) => {
                if v.0 {
                    return crate::types::PositionTpSlResponse { is_tpsl: true };
                }
            },
            Err(_) => {},
        }
        i = i + 1;
    }
    crate::types::PositionTpSlResponse { is_tpsl: false }
}

/// Evaluates one position's take-profit or stop-loss at the live
/// reserves and, when it has been reached, persists the close descriptor
/// and returns the closing swap.
pub fn trigger_tp_sl(
    state: &State,
    store: &PositionStore,
    pending: &mut crate::pending::PendingSwaps,
    vamm_is_open: bool,
    position_id: u64,
    do_tp: bool,
    reserve: &TmpReserveInfo,
    decimals: u128,
    tp_sl_spread: u128,
) -> (r: Result<Option<crate::messages::SwapAction>, ContractError>)
    requires
        decimals > 0,
        store.well_formed(),
        old(pending).well_formed(),
    ensures
        final(pending).well_formed(),
        r is Err ==> *final(pending) == *old(pending),
        !crate::store::spec_contains_id(store.view(), position_id) ==> r == Err::<
            Option<crate::messages::SwapAction>,
            ContractError,
        >(ContractError::PositionNotFound),
        crate::store::spec_contains_id(store.view(), position_id) && !vamm_is_open ==> r == Err::<
            Option<crate::messages::SwapAction>,
            ContractError,
        >(ContractError::VammNotOpen),
        crate::store::spec_contains_id(store.view(), position_id) && vamm_is_open
            && crate::guard::spec_action_blocked(state.pause, UserAction::TriggerTpSl) ==> r
            == Err::<Option<crate::messages::SwapAction>, ContractError>(ContractError::Paused),
        (forall|p: Position|
            store.view().contains(p) && p.position_id == position_id && vamm_is_open
                && !crate::guard::spec_action_blocked(state.pause, UserAction::TriggerTpSl)
                && spec_evaluate_ok(p, *reserve, decimals, tp_sl_spread) ==> ({
                let fires = spec_trigger_fires(p, *reserve, decimals, tp_sl_spread, do_tp);
                &&& !fires ==> r == Ok::<Option<crate::messages::SwapAction>, ContractError>(
                    Option::None,
                ) && *final(pending) == *old(pending)
                &&& fires ==> (r matches Ok(a) && a == Option::Some(
                    crate::messages::SwapAction::SwapOutput {
                        vamm: p.vamm,
                        direction: p.direction,
                        position_id,
                        base_asset_amount: p.size.value,
                        quote_asset_limit: 0,
                        reply_id: crate::error::ReplyKind::ClosePosition,
                    },
                ) && (forall|t: crate::types::TmpSwapInfo|
                    final(pending).view().contains(t) <==> (t
                        == crate::messages::spec_close_descriptor(p) || (old(
                        pending,
                    ).view().contains(t) && t.position_id != position_id))))
            })),
{
    let position: Position = match store.read_position(position_id) {
        Ok(p) => p,
        Err(e) => {
            return Err(e);
        },
    };
    proof {
        assert forall|p: Position|
            store.view().contains(p) && p.position_id == position_id implies p == position by {
            crate::store::lemma_id_unique(store.view(), p, position);
        }
    }
    if !vamm_is_open {
        return Err(ContractError::VammNotOpen);
    }
    match crate::guard::require_not_paused(state.pause, UserAction::TriggerTpSl) {
        Ok(_) => {},
        Err(e) => {
            return Err(e);
        },
    }
    let evaluated: (bool, u128, u128) = match evaluate_position(
        &position,
        reserve,
        decimals,
        tp_sl_spread,
        do_tp,
    ) {
        Ok(v) => v,
        Err(e) => {
            return Err(e);
        },
    };
    if evaluated.0 {
        Ok(
            Some(
                crate::messages::internal_close_position(
                    pending,
                    &position,
                    0,
                    crate::error::ReplyKind::ClosePosition,
                ),
            ),
        )
    } else {
        Ok(None)
    }
}


/// The concatenation, tick by tick, of each tick's first page of
/// positions, in ascending identifier order within a tick.
pub open spec fn spec_tick_pages(
    s: Seq<Position>,
    side: Side,
    ticks: Seq<TickResponse>,
    i: int,
) -> Seq<Position>
    decreases ticks.len() - i,
{
    if i < 0 || i >= ticks.len() {
        Seq::empty()
    } else {
        crate::store::spec_page(
            s,
            true,
            Option::None,
            Option::Some(side),
            Option::None,
            Option::Some(ticks[i].entry_price),
            Option::None,
        ) + spec_tick_pages(s, side, ticks, i + 1)
    }
}

/// The candidate positions a batch trigger visits: the occupied ticks in
/// the chosen scan order — descending when hunting take-profits on longs
/// or stop-losses on shorts, ascending otherwise — and, within each tick,
/// the first page of positions by ascending identifier.
pub fn tick_candidates(store: &PositionStore, side: Side, do_tp: bool, limit: u32) -> (r: (
    TicksResponse,
    Vec<Position>,
))
    requires
        store.well_formed(),
    ensures
        r.1@ == spec_tick_pages(store.view(), side, r.0.ticks@, 0),
        r.0.ticks@.len() <= spec_effective_limit(Option::Some(limit)),
        forall|k: int|
            0 <= k < r.0.ticks@.len() ==> (#[trigger] r.0.ticks@[k]).total_positions
                == spec_tick_count(store.view(), side, r.0.ticks@[k].entry_price)
                && r.0.ticks@[k].total_positions > 0,
        forall|k: int|
            0 <= k < r.0.ticks@.len() ==> spec_tick_in_range(
                (#[trigger] r.0.ticks@[k]).entry_price,
                if k == 0 {
                    Option::None
                } else {
                    Option::Some(r.0.ticks@[k - 1].entry_price)
                },
                Option::None,
                do_tp != (side == Side::Buy),
            ),
        r.0.ticks@.len() < spec_effective_limit(Option::Some(limit)) ==> (forall|q: u128|
            spec_tick_count(store.view(), side, q) > 0 ==> spec_ticks_contain(r.0.ticks@, q)),
        r.0.ticks@.len() > 0 ==> (forall|q: u128|
            spec_tick_count(store.view(), side, q) > 0 && spec_at_or_before(
                q,
                r.0.ticks@.last().entry_price,
                do_tp != (side == Side::Buy),
            ) ==> spec_ticks_contain(r.0.ticks@, q)),
{
    let order: Order = if do_tp == matches!(side, Side::Buy) {
        Order::Descending
    } else {
        Order::Ascending
    };
    proof {
        assert((Some(order) == Some(Order::Ascending)) == (do_tp != (side == Side::Buy)));
    }
    let ticks: TicksResponse = query_ticks(store, side, None, Some(limit), Some(order));
    let candidates: Vec<Position> = pages_from(store, side, &ticks.ticks, 0);
    (ticks, candidates)
}

/// Collects the per-tick pages from one tick onward.
fn pages_from(store: &PositionStore, side: Side, ticks: &Vec<TickResponse>, i: usize) -> (r: Vec<
    Position,
>)
    requires
        store.well_formed(),
        i <= ticks@.len(),
    ensures
        r@ == spec_tick_pages(store.view(), side, ticks@, i as int),
    decreases ticks@.len() - i,
{
    if i == ticks.len() {
        let empty: Vec<Position> = Vec::new();
        proof {
            assert(empty@ =~= Seq::<Position>::empty());
        }
        empty
    } else {
        let mut page: Vec<Position> = store.query_positions(
            Some(side),
            &crate::types::PositionFilter::Price(ticks[i].entry_price),
            None,
            None,
            Some(Order::Ascending),
        );
        let mut rest: Vec<Position> = pages_from(store, side, ticks, i + 1);
        page.append(&mut rest);
        page
    }
}

} // verus!

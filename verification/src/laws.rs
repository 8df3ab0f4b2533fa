//! Engine-wide laws, stated and proved over the same spec functions the
//! operations' own contracts use.

use vstd::prelude::*;
use crate::error::ContractError;
use crate::handle::{OpenPositionQuotes, spec_open_error, spec_restricted};
use crate::guard::{spec_action_blocked, spec_list_contains};
use crate::store::{
    DEFAULT_LIMIT, MAX_LIMIT, page_pred, spec_effective_limit, spec_matches, spec_page,
};
use crate::types::{Config, Position, Side, State, TradingConfig, UserAction, VammMap};

verus! {

/// Opening with leverage below one (below the decimal scale) always fails
/// with the leverage-too-low error, whatever the margin amount, whenever
/// the request gets as far as the leverage check: the engine is not
/// paused for opens, the trader passes the whitelist, the market is
/// registered and open, no restriction applies, and both margin and
/// leverage are non-zero.
pub proof fn lemma_low_leverage_rejected(
    config: Config,
    state: State,
    trading_config: TradingConfig,
    vamm_map: VammMap,
    whitelist: Seq<String>,
    whitelist_traders: Seq<String>,
    trader: Seq<char>,
    side: Side,
    margin_amount: u128,
    leverage: u128,
    take_profit: Option<u128>,
    stop_loss: Option<u128>,
    block_height: u64,
    q: OpenPositionQuotes,
)
    requires
        !q.is_over_price_diff_limit,
        trading_config.enable_whitelist ==> spec_list_contains(whitelist_traders, trader),
        !spec_action_blocked(state.pause, UserAction::OpenPosition),
        config.insurance_fund is Some,
        q.vamm_is_registered,
        q.vamm_is_open,
        !spec_restricted(vamm_map, block_height, whitelist, trader),
        margin_amount != 0,
        leverage != 0,
        leverage < config.decimals,
    ensures
        spec_open_error(
            config,
            state,
            trading_config,
            vamm_map,
            whitelist,
            whitelist_traders,
            trader,
            side,
            margin_amount,
            leverage,
            take_profit,
            stop_loss,
            block_height,
            q,
        ) == Option::Some(ContractError::LeverageTooLow),
{
}

/// Take-profit/stop-loss ordering at open: once a request has passed
/// every earlier check, a Buy whose take-profit is at or below the quoted
/// entry price fails, as does a Buy whose stop-loss is above it; the
/// mirrored orderings fail for a Sell.
pub proof fn lemma_tp_sl_ordering_at_open(
    config: Config,
    state: State,
    trading_config: TradingConfig,
    vamm_map: VammMap,
    whitelist: Seq<String>,
    whitelist_traders: Seq<String>,
    trader: Seq<char>,
    side: Side,
    margin_amount: u128,
    leverage: u128,
    take_profit: Option<u128>,
    stop_loss: Option<u128>,
    block_height: u64,
    q: OpenPositionQuotes,
)
    requires
        !q.is_over_price_diff_limit,
        trading_config.enable_whitelist ==> spec_list_contains(whitelist_traders, trader),
        !spec_action_blocked(state.pause, UserAction::OpenPosition),
        config.insurance_fund is Some,
        q.vamm_is_registered,
        q.vamm_is_open,
        !spec_restricted(vamm_map, block_height, whitelist, trader),
        margin_amount != 0,
        leverage != 0,
        leverage >= config.decimals,
        config.decimals as int * config.decimals as int <= u128::MAX as int,
        ((config.decimals as int * config.decimals as int) / (leverage as int))
            >= config.initial_margin_ratio as int,
        ((config.decimals as int * config.decimals as int) / (leverage as int))
            >= q.vamm_initial_margin_ratio as int,
        margin_amount as int * leverage as int <= u128::MAX as int,
        crate::handle::spec_open_new_margin(margin_amount as int, q) > 0,
        crate::handle::spec_open_new_margin(margin_amount as int, q) * leverage as int
            <= u128::MAX as int,
        crate::handle::spec_open_notional(
            margin_amount as int,
            leverage as int,
            config.decimals as int,
            q,
        ) <= trading_config.max_notional_size as int,
        leverage >= trading_config.min_leverage,
    ensures
        side == Side::Buy && take_profit is Some && take_profit->0 <= q.entry_price
            ==> spec_open_error(
            config,
            state,
            trading_config,
            vamm_map,
            whitelist,
            whitelist_traders,
            trader,
            side,
            margin_amount,
            leverage,
            take_profit,
            stop_loss,
            block_height,
            q,
        ) == Option::Some(ContractError::TakeProfitTooLow),
        side == Side::Buy && (take_profit is Some ==> take_profit->0 > q.entry_price)
            && stop_loss is Some && stop_loss->0 > q.entry_price ==> spec_open_error(
            config,
            state,
            trading_config,
            vamm_map,
            whitelist,
            whitelist_traders,
            trader,
            side,
            margin_amount,
            leverage,
            take_profit,
            stop_loss,
            block_height,
            q,
        ) == Option::Some(ContractError::StopLossTooHigh),
        side == Side::Sell && take_profit is Some && take_profit->0 >= q.entry_price
            ==> spec_open_error(
            config,
            state,
            trading_config,
            vamm_map,
            whitelist,
            whitelist_traders,
            trader,
            side,
            margin_amount,
            leverage,
            take_profit,
            stop_loss,
            block_height,
            q,
        ) == Option::Some(ContractError::TakeProfitTooHigh),
        side == Side::Sell && (take_profit is Some ==> take_profit->0 < q.entry_price)
            && stop_loss is Some && stop_loss->0 < q.entry_price ==> spec_open_error(
            config,
            state,
            trading_config,
            vamm_map,
            whitelist,
            whitelist_traders,
            trader,
            side,
            margin_amount,
            leverage,
            take_profit,
            stop_loss,
            block_height,
            q,
        ) == Option::Some(ContractError::StopLossTooLow),
{
}

/// Pagination resolves its page size to the default of ten when the limit
/// is absent or zero, and clamps any requested limit at one hundred.
pub proof fn lemma_effective_limit(limit: Option<u32>)
    ensures
        spec_effective_limit(Option::None) == DEFAULT_LIMIT,
        spec_effective_limit(Option::Some(0)) == DEFAULT_LIMIT,
        (limit matches Some(l) && l > MAX_LIMIT) ==> spec_effective_limit(limit) == MAX_LIMIT,
        (limit matches Some(l) && 0 < l <= MAX_LIMIT) ==> spec_effective_limit(limit)
            == limit->0,
{
}

/// An ascending page never holds the `start_after` record itself — every
/// returned identifier lies strictly beyond it — and a descending page
/// uses it as an exclusive upper bound.
pub proof fn lemma_page_excludes_start(
    s: Seq<Position>,
    ascending: bool,
    start_after: u64,
    side: Option<Side>,
    trader: Option<Seq<char>>,
    entry_price: Option<u128>,
    limit: Option<u32>,
    k: int,
)
    requires
        0 <= k < spec_page(s, ascending, Option::Some(start_after), side, trader, entry_price, limit).len(),
    ensures
        ascending ==> spec_page(
            s,
            ascending,
            Option::Some(start_after),
            side,
            trader,
            entry_price,
            limit,
        )[k].position_id > start_after,
        !ascending ==> spec_page(
            s,
            ascending,
            Option::Some(start_after),
            side,
            trader,
            entry_price,
            limit,
        )[k].position_id < start_after,
{
    let scan = if ascending {
        s
    } else {
        s.reverse()
    };
    let pred = page_pred(ascending, Option::Some(start_after), side, trader, entry_price);
    let matching = scan.filter(pred);
    let page = spec_page(s, ascending, Option::Some(start_after), side, trader, entry_price, limit);
    assert(page[k] == matching[k]);
    scan.lemma_filter_pred(pred, k);
    assert(spec_matches(
        matching[k],
        ascending,
        Option::Some(start_after),
        side,
        trader,
        entry_price,
    ));
}

} // verus!

//! A margin engine for perpetual-futures trading against a virtual automated
//! market maker (vAMM).
//!
//! The crate is a deterministic state-transition library: every operation is a
//! function from the engine's state and the caller's inputs (including the
//! quotes obtained from collaborator contracts) to a new state and an action.
//! The host runtime, storage serialisation and inter-contract messaging live
//! outside this crate.

use vstd::prelude::*;

mod amm;
mod error;
mod funding;
mod guard;
mod handle;
mod integer;
mod keys;
mod laws;
mod margin;
mod messages;
mod pending;
mod reply;
mod router;
mod store;
mod tick;
mod tpsl;
mod types;
mod validate;

pub use amm::{get_input_price_with_reserves, get_output_price_with_reserves};
pub use error::{ContractError, ReplyKind};
pub use funding::{
    append_cumulative_premium_fraction, latest_cumulative_premium_fraction,
    lemma_funding_accumulation_associative,
};
pub use guard::{
    AddressList, add_whitelist, is_whitelisted, remove_relayer, remove_whitelist,
    remove_whitelist_trader, require_not_paused, set_pause, set_relayer, whitelist_trader,
};
pub use handle::{
    ClosePositionQuotes, LiquidationQuotes, OpenPositionQuotes, check_base_asset_holding_cap,
    check_max_notional_size, check_min_leverage, close_position, deposit_margin,
    enter_restriction_mode, intended_open_notional, liquidate, liquidation_fee_split,
    open_position, pay_funding, realize_bad_debt,
    require_additional_margin, require_bad_debt, require_insufficient_margin,
    require_is_not_over_spread_limit, require_non_zero_input, require_not_restriction_mode,
    require_position_not_zero, require_vamm, position_is_bad_debt, position_is_liquidated,
    update_config, update_open_interest_notional, update_operator, update_tp_sl,
    update_trading_config, withdraw_margin,
};
pub use integer::Integer;
pub use keys::{calc_range_start, keccak_256};
pub use laws::{
    lemma_effective_limit, lemma_low_leverage_rejected, lemma_page_excludes_start,
    lemma_tp_sl_ordering_at_open,
};
pub use margin::lemma_remaining_margin_never_negative;
pub use margin::{
    calc_funding_payment, calc_remain_margin_with_funding_payment, checked_mul_div,
    free_collateral, margin_ratio, position_notional_unrealized_pnl,
    position_with_funding_payment, try_margin_ratio,
};
pub use messages::{
    SwapAction, internal_close_position, internal_open_position, swap_input, swap_output,
};
pub use pending::PendingSwaps;
pub use reply::{
    CloseOutcome, close_position_reply, open_position_reply, parse_integer, parse_pay_funding,
    parse_swap, parse_u128, parse_u64, pay_funding_reply, read_event, reply_error,
};
pub use router::{
    AssetInfo, SmartRouterController, SwapOperation, VammResponse, VammStatusResponse,
};
pub use store::{DEFAULT_LIMIT, MAX_LIMIT, Order, PositionStore};
pub use tick::{
    query_position_is_tpsl, query_tick, query_ticks, tick_candidates, trigger_mutiple_tp_sl,
    trigger_tp_sl,
};
pub use tpsl::{TpSlAction, abs_diff, calculate_tp_sl_spread, check_tp_sl_price, update_reserve};
pub use types::{
    Config, Direction, LastPositionIdResponse, MigrateMsg, PauseType, PnlCalcOption, Position,
    PositionFilter, PositionTpSlResponse, PositionUnrealizedPnlResponse, RemainMarginResponse,
    SentFunds, Side, State, TickResponse, TicksResponse, TmpReserveInfo, TmpSwapInfo,
    TradingConfig, UserAction, VammMap, direction_to_side, position_to_side, side_to_direction,
};
pub use validate::{
    validate_decimal_places, validate_margin_ratios, validate_non_fraction, validate_ratio,
};

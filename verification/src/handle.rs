//! The position lifecycle orchestrator.
//!
//! Each operation is phase one of a two-phase step: it validates against
//! the engine's state and the collaborator quotes the host obtained,
//! mutates nothing until every check has passed, persists a pending
//! descriptor where a swap must be issued, and returns the action for the
//! host.  Phase two — consuming the swap outcome — lives in the
//! continuation dispatcher.  Quotes are taken as arguments: the engine
//! states what holds for whatever values the collaborators returned.

use vstd::prelude::*;
use crate::error::ContractError;
use crate::guard::{AddressList, spec_action_blocked, spec_list_contains};
use crate::integer::{Integer, abs_int};
use crate::margin::checked_mul_div;
use crate::store::PositionStore;
use crate::types::{Config, Position, Side, State, TmpSwapInfo, TradingConfig, UserAction, VammMap};
use crate::validate::{validate_margin_ratios, validate_ratio};

verus! {

/// Rejects a zero amount.
pub fn require_non_zero_input(input: u128) -> (r: Result<(), ContractError>)
    ensures
        r is Err <==> input == 0,
        r is Err ==> r == Err::<(), ContractError>(ContractError::ZeroInput),
{
    if input == 0 {
        Err(ContractError::ZeroInput)
    } else {
        Ok(())
    }
}

/// Rejects a position whose size is zero: such a position is logically
/// closed and no operation but open may touch it.
pub fn require_position_not_zero(size: u128) -> (r: Result<(), ContractError>)
    ensures
        r is Err <==> size == 0,
        r is Err ==> r == Err::<(), ContractError>(ContractError::PositionIsZero),
{
    if size == 0 {
        Err(ContractError::PositionIsZero)
    } else {
        Ok(())
    }
}

/// Rejects any remaining bad debt.
pub fn require_bad_debt(bad_debt: u128) -> (r: Result<(), ContractError>)
    ensures
        r is Err <==> bad_debt != 0,
        r is Err ==> r == Err::<(), ContractError>(ContractError::InsufficientMargin),
{
    if bad_debt != 0 {
        Err(ContractError::InsufficientMargin)
    } else {
        Ok(())
    }
}

/// Rejects a margin ratio below the required base margin.
pub fn require_additional_margin(margin_ratio: Integer, base_margin: u128) -> (r: Result<
    (),
    ContractError,
>)
    requires
        margin_ratio.well_formed(),
    ensures
        r is Err <==> margin_ratio.as_int() < base_margin as int,
        r is Err ==> r == Err::<(), ContractError>(ContractError::Undercollateralized),
{
    let base: Integer = Integer::new_positive(base_margin);
    if margin_ratio.is_lt(&base) {
        Err(ContractError::Undercollateralized)
    } else {
        Ok(())
    }
}

/// Rejects a margin ratio above the required base margin: such a position
/// is healthy and cannot be liquidated.
pub fn require_insufficient_margin(margin_ratio: Integer, base_margin: u128) -> (r: Result<
    (),
    ContractError,
>)
    requires
        margin_ratio.well_formed(),
    ensures
        r is Err <==> margin_ratio.as_int() > base_margin as int,
        r is Err ==> r == Err::<(), ContractError>(ContractError::Overcollateralized),
{
    let base: Integer = Integer::new_positive(base_margin);
    if margin_ratio.is_gt(&base) {
        Err(ContractError::Overcollateralized)
    } else {
        Ok(())
    }
}

/// Rejects a market the insurance fund does not know, or one that is
/// closed.  The registration and open flags are the host's query results.
pub fn require_vamm(
    insurance_fund: &Option<String>,
    vamm_is_registered: bool,
    vamm_is_open: bool,
) -> (r: Result<(), ContractError>)
    ensures
        insurance_fund is None ==> r == Err::<(), ContractError>(
            ContractError::InsuranceFundNotRegistered,
        ),
        insurance_fund is Some && !vamm_is_registered ==> r == Err::<(), ContractError>(
            ContractError::VammNotRegistered,
        ),
        insurance_fund is Some && vamm_is_registered && !vamm_is_open ==> r == Err::<
            (),
            ContractError,
        >(ContractError::VammNotOpen),
        insurance_fund is Some && vamm_is_registered && vamm_is_open ==> r is Ok,
{
    match insurance_fund {
        Option::Some(_) => {
            if !vamm_is_registered {
                Err(ContractError::VammNotRegistered)
            } else if !vamm_is_open {
                Err(ContractError::VammNotOpen)
            } else {
                Ok(())
            }
        },
        Option::None => Err(ContractError::InsuranceFundNotRegistered),
    }
}

/// Whether restriction mode rejects the trader: a second state-changing
/// action in the block that set the restriction, unless the trader is on
/// the exemption whitelist.
pub open spec fn spec_restricted(
    vamm_map: VammMap,
    block_height: u64,
    whitelist: Seq<String>,
    trader: Seq<char>,
) -> bool {
    vamm_map.last_restriction_block == block_height && !spec_list_contains(whitelist, trader)
}

/// Rejects a trader's second state-changing action within the restriction
/// block, unless the trader is whitelisted.
pub fn require_not_restriction_mode(
    vamm_map: &VammMap,
    block_height: u64,
    whitelist: &AddressList,
    trader: &String,
) -> (r: Result<(), ContractError>)
    ensures
        r is Err <==> spec_restricted(*vamm_map, block_height, whitelist.view(), trader@),
        r is Err ==> r == Err::<(), ContractError>(ContractError::OnlyOneAction),
{
    if vamm_map.last_restriction_block == block_height && !whitelist.contains(trader) {
        Err(ContractError::OnlyOneAction)
    } else {
        Ok(())
    }
}

/// Rejects an intended open notional above the configured cap.
pub fn check_max_notional_size(open_notional: u128, max_notional_size: u128) -> (r: Result<
    (),
    ContractError,
>)
    ensures
        r is Err <==> open_notional > max_notional_size,
        r is Err ==> r == Err::<(), ContractError>(ContractError::MaxNotionalSizeExceeded),
{
    if open_notional > max_notional_size {
        Err(ContractError::MaxNotionalSizeExceeded)
    } else {
        Ok(())
    }
}

/// Rejects a leverage below the configured minimum.
pub fn check_min_leverage(leverage: u128, min_leverage: u128) -> (r: Result<(), ContractError>)
    ensures
        r is Err <==> leverage < min_leverage,
        r is Err ==> r == Err::<(), ContractError>(ContractError::LeverageBelowMinimum),
{
    if leverage < min_leverage {
        Err(ContractError::LeverageBelowMinimum)
    } else {
        Ok(())
    }
}

/// Adds a signed amount to the open interest notional, clamped at zero.
/// The cap is bypassed for whitelisted traders; a zero cap means no cap.
pub fn update_open_interest_notional(
    state: &mut State,
    cap: u128,
    amount: Integer,
    whitelist: &AddressList,
    trader: &String,
) -> (r: Result<(), ContractError>)
    requires
        amount.well_formed(),
    ensures
        old(state).open_interest_notional + amount.as_int() > u128::MAX as int ==> r == Err::<
            (),
            ContractError,
        >(ContractError::Overflow) && *final(state) == *old(state),
        old(state).open_interest_notional + amount.as_int() <= u128::MAX as int ==> ({
            let updated = if old(state).open_interest_notional + amount.as_int() < 0 {
                0int
            } else {
                old(state).open_interest_notional + amount.as_int()
            };
            let blocked = cap != 0 && amount.as_int() > 0 && updated > cap as int
                && !spec_list_contains(whitelist.view(), trader@);
            &&& blocked ==> r == Err::<(), ContractError>(ContractError::OpenInterestCapExceeded)
                && *final(state) == *old(state)
            &&& !blocked ==> r is Ok && *final(state) == (State {
                open_interest_notional: updated as u128,
                ..*old(state)
            })
        }),
{
    let current: Integer = Integer::new_positive(state.open_interest_notional);
    let mut updated: Integer = match amount.checked_add(&current) {
        Some(v) => v,
        None => {
            return Err(ContractError::Overflow);
        },
    };
    if updated.is_negative() {
        updated = Integer::zero();
    }
    if cap != 0 && amount.is_positive() && updated.is_gt(&Integer::new_positive(cap))
        && !whitelist.contains(trader) {
        return Err(ContractError::OpenInterestCapExceeded);
    }
    state.open_interest_notional = updated.value;
    Ok(())
}

/// Rejects a position size above the market's base asset holding cap,
/// unless the trader is whitelisted.  A zero cap means no cap.
pub fn check_base_asset_holding_cap(
    cap: u128,
    size: u128,
    whitelist: &AddressList,
    trader: &String,
) -> (r: Result<(), ContractError>)
    ensures
        r is Err <==> (cap != 0 && size > cap && !spec_list_contains(whitelist.view(), trader@)),
        r is Err ==> r == Err::<(), ContractError>(ContractError::BaseHoldingCapExceeded),
{
    if cap != 0 && size > cap && !whitelist.contains(trader) {
        Err(ContractError::BaseHoldingCapExceeded)
    } else {
        Ok(())
    }
}

/// Marks the market as restricted for the rest of this block.
pub fn enter_restriction_mode(vamm_map: &mut VammMap, block_height: u64)
    ensures
        final(vamm_map).last_restriction_block == block_height,
        final(vamm_map).cumulative_premium_fractions == old(vamm_map).cumulative_premium_fractions,
{
    vamm_map.last_restriction_block = block_height;
}

/// Replaces the operator address.  Only the owner may do so.
pub fn update_operator(config: &mut Config, sender: &String, operator: Option<String>) -> (r:
    Result<(), ContractError>)
    ensures
        sender@ != old(config).owner@ ==> r == Err::<(), ContractError>(
            ContractError::Unauthorized,
        ) && *final(config) == *old(config),
        sender@ == old(config).owner@ ==> r is Ok && *final(config) == (Config {
            operator,
            ..*old(config)
        }),
{
    if !sender.eq(&config.owner) {
        return Err(ContractError::Unauthorized);
    }
    config.operator = operator;
    Ok(())
}

/// Updates the trading limits.  Only the owner may do so; absent fields
/// keep their value.
pub fn update_trading_config(
    config: &Config,
    trading_config: &mut TradingConfig,
    sender: &String,
    enable_whitelist: Option<bool>,
    max_notional_size: Option<u128>,
    min_leverage: Option<u128>,
) -> (r: Result<(), ContractError>)
    ensures
        sender@ != config.owner@ ==> r == Err::<(), ContractError>(ContractError::Unauthorized)
            && *final(trading_config) == *old(trading_config),
        sender@ == config.owner@ ==> r is Ok && *final(trading_config) == (TradingConfig {
            enable_whitelist: (match enable_whitelist {
                Option::Some(v) => v,
                Option::None => old(trading_config).enable_whitelist,
            }),
            max_notional_size: (match max_notional_size {
                Option::Some(v) => v,
                Option::None => old(trading_config).max_notional_size,
            }),
            min_leverage: (match min_leverage {
                Option::Some(v) => v,
                Option::None => old(trading_config).min_leverage,
            }),
        }),
{
    if !sender.eq(&config.owner) {
        return Err(ContractError::Unauthorized);
    }
    match enable_whitelist {
        Some(v) => {
            trading_config.enable_whitelist = v;
        },
        None => {},
    }
    match max_notional_size {
        Some(v) => {
            trading_config.max_notional_size = v;
        },
        None => {},
    }
    match min_leverage {
        Some(v) => {
            trading_config.min_leverage = v;
        },
        None => {},
    }
    Ok(())
}

/// What a configuration update would produce: each given field is
/// validated in order and applied; the first failing validation decides
/// the error.
pub open spec fn spec_apply_config_update(
    config: Config,
    owner: Option<String>,
    insurance_fund: Option<String>,
    fee_pool: Option<String>,
    initial_margin_ratio: Option<u128>,
    maintenance_margin_ratio: Option<u128>,
    partial_liquidation_ratio: Option<u128>,
    tp_sl_spread: Option<u128>,
    liquidation_fee: Option<u128>,
) -> Result<Config, ContractError> {
    let c1 = match owner {
        Option::Some(o) => Config { owner: o, ..config },
        Option::None => config,
    };
    let c2 = match insurance_fund {
        Option::Some(i) => Config { insurance_fund: Option::Some(i), ..c1 },
        Option::None => c1,
    };
    let c3 = match fee_pool {
        Option::Some(f) => Config { fee_pool: f, ..c2 },
        Option::None => c2,
    };
    if initial_margin_ratio is Some && initial_margin_ratio->0 > c3.decimals {
        Err(ContractError::InvalidRatio)
    } else if initial_margin_ratio is Some && c3.maintenance_margin_ratio
        > initial_margin_ratio->0 {
        Err(ContractError::InvalidMarginRatios)
    } else {
        let c4 = match initial_margin_ratio {
            Option::Some(v) => Config { initial_margin_ratio: v, ..c3 },
            Option::None => c3,
        };
        if maintenance_margin_ratio is Some && maintenance_margin_ratio->0 > c4.decimals {
            Err(ContractError::InvalidRatio)
        } else if maintenance_margin_ratio is Some && maintenance_margin_ratio->0
            > c4.initial_margin_ratio {
            Err(ContractError::InvalidMarginRatios)
        } else {
            let c5 = match maintenance_margin_ratio {
                Option::Some(v) => Config { maintenance_margin_ratio: v, ..c4 },
                Option::None => c4,
            };
            if partial_liquidation_ratio is Some && partial_liquidation_ratio->0 > c5.decimals {
                Err(ContractError::InvalidRatio)
            } else {
                let c6 = match partial_liquidation_ratio {
                    Option::Some(v) => Config { partial_liquidation_ratio: v, ..c5 },
                    Option::None => c5,
                };
                if tp_sl_spread is Some && tp_sl_spread->0 > c6.decimals {
                    Err(ContractError::InvalidRatio)
                } else {
                    let c7 = match tp_sl_spread {
                        Option::Some(v) => Config { tp_sl_spread: v, ..c6 },
                        Option::None => c6,
                    };
                    if liquidation_fee is Some && liquidation_fee->0 > c7.decimals {
                        Err(ContractError::InvalidRatio)
                    } else {
                        let c8 = match liquidation_fee {
                            Option::Some(v) => Config { liquidation_fee: v, ..c7 },
                            Option::None => c7,
                        };
                        Ok(c8)
                    }
                }
            }
        }
    }
}

/// Updates the engine configuration.  Only the owner may do so; ratio
/// fields are validated against the decimal scale and against each other,
/// and nothing changes when any validation fails.
#[verifier::rlimit(60)]
pub fn update_config(
    config: &mut Config,
    sender: &String,
    owner: Option<String>,
    insurance_fund: Option<String>,
    fee_pool: Option<String>,
    initial_margin_ratio: Option<u128>,
    maintenance_margin_ratio: Option<u128>,
    partial_liquidation_ratio: Option<u128>,
    tp_sl_spread: Option<u128>,
    liquidation_fee: Option<u128>,
) -> (r: Result<(), ContractError>)
    ensures
        sender@ != old(config).owner@ ==> r == Err::<(), ContractError>(
            ContractError::Unauthorized,
        ) && *final(config) == *old(config),
        sender@ == old(config).owner@ ==> (match spec_apply_config_update(
            *old(config),
            owner,
            insurance_fund,
            fee_pool,
            initial_margin_ratio,
            maintenance_margin_ratio,
            partial_liquidation_ratio,
            tp_sl_spread,
            liquidation_fee,
        ) {
            Ok(updated) => r is Ok && *final(config) == updated,
            Err(e) => r == Err::<(), ContractError>(e) && *final(config) == *old(config),
        }),
{
    if !sender.eq(&config.owner) {
        return Err(ContractError::Unauthorized);
    }
    let mut updated: Config = Config {
        owner: config.owner.clone(),
        insurance_fund: (match &config.insurance_fund {
            Some(i) => Some(i.clone()),
            None => None,
        }),
        fee_pool: config.fee_pool.clone(),
        decimals: config.decimals,
        initial_margin_ratio: config.initial_margin_ratio,
        maintenance_margin_ratio: config.maintenance_margin_ratio,
        partial_liquidation_ratio: config.partial_liquidation_ratio,
        tp_sl_spread: config.tp_sl_spread,
        liquidation_fee: config.liquidation_fee,
        operator: (match &config.operator {
            Some(o) => Some(o.clone()),
            None => None,
        }),
    };
    match owner {
        Some(o) => {
            updated.owner = o;
        },
        None => {},
    }
    match insurance_fund {
        Some(i) => {
            updated.insurance_fund = Some(i);
        },
        None => {},
    }
    match fee_pool {
        Some(f) => {
            updated.fee_pool = f;
        },
        None => {},
    }
    match initial_margin_ratio {
        Some(v) => {
            match validate_ratio(v, updated.decimals) {
                Ok(_) => {},
                Err(e) => {
                    return Err(e);
                },
            }
            match validate_margin_ratios(v, updated.maintenance_margin_ratio) {
                Ok(_) => {},
                Err(e) => {
                    return Err(e);
                },
            }
            updated.initial_margin_ratio = v;
        },
        None => {},
    }
    match maintenance_margin_ratio {
        Some(v) => {
            match validate_ratio(v, updated.decimals) {
                Ok(_) => {},
                Err(e) => {
                    return Err(e);
                },
            }
            match validate_margin_ratios(updated.initial_margin_ratio, v) {
                Ok(_) => {},
                Err(e) => {
                    return Err(e);
                },
            }
            updated.maintenance_margin_ratio = v;
        },
        None => {},
    }
    match partial_liquidation_ratio {
        Some(v) => {
            match validate_ratio(v, updated.decimals) {
                Ok(_) => {},
                Err(e) => {
                    return Err(e);
                },
            }
            updated.partial_liquidation_ratio = v;
        },
        None => {},
    }
    match tp_sl_spread {
        Some(v) => {
            match validate_ratio(v, updated.decimals) {
                Ok(_) => {},
                Err(e) => {
                    return Err(e);
                },
            }
            updated.tp_sl_spread = v;
        },
        None => {},
    }
    match liquidation_fee {
        Some(v) => {
            match validate_ratio(v, updated.decimals) {
                Ok(_) => {},
                Err(e) => {
                    return Err(e);
                },
            }
            updated.liquidation_fee = v;
        },
        None => {},
    }
    *config = updated;
    Ok(())
}

/// Adds margin to a position.  The caller pre-validates the transferred
/// funds; funding is settled lazily at the next read, not here.
pub fn deposit_margin(
    state: &State,
    store: &mut PositionStore,
    position_id: u64,
    amount: u128,
    trader: &String,
) -> (r: Result<(), ContractError>)
    requires
        old(store).well_formed(),
    ensures
        final(store).well_formed(),
        r is Err ==> *final(store) == *old(store),
        spec_action_blocked(state.pause, UserAction::DepositMargin) ==> r == Err::<
            (),
            ContractError,
        >(ContractError::Paused),
        !spec_action_blocked(state.pause, UserAction::DepositMargin) && amount == 0 ==> r
            == Err::<(), ContractError>(ContractError::ZeroInput),
        !spec_action_blocked(state.pause, UserAction::DepositMargin) && amount != 0
            && !crate::store::spec_contains_id(old(store).view(), position_id) ==> r == Err::<
            (),
            ContractError,
        >(ContractError::PositionNotFound),
        !spec_action_blocked(state.pause, UserAction::DepositMargin) && amount != 0 ==> (forall|
            p: Position,
        |
            old(store).view().contains(p) && p.position_id == position_id && p.trader@ != trader@
                ==> r == Err::<(), ContractError>(ContractError::Unauthorized)),
        !spec_action_blocked(state.pause, UserAction::DepositMargin) && amount != 0 ==> (forall|
            p: Position,
        |
            old(store).view().contains(p) && p.position_id == position_id && p.trader@ == trader@
                && p.margin + amount > u128::MAX as int ==> r == Err::<(), ContractError>(
                ContractError::Overflow,
            )),
        !spec_action_blocked(state.pause, UserAction::DepositMargin) && amount != 0 ==> (forall|
            p: Position,
        |
            old(store).view().contains(p) && p.position_id == position_id && p.trader@ == trader@
                && p.margin + amount <= u128::MAX as int ==> (r is Ok && (forall|q: Position|
                final(store).view().contains(q) <==> (q == (Position {
                    margin: (p.margin + amount) as u128,
                    ..p
                }) || (old(store).view().contains(q) && q.position_id != position_id))))),
{
    match crate::guard::require_not_paused(state.pause, UserAction::DepositMargin) {
        Ok(_) => {},
        Err(e) => {
            return Err(e);
        },
    }
    match require_non_zero_input(amount) {
        Ok(_) => {},
        Err(e) => {
            return Err(e);
        },
    }
    let position: Position = match store.read_position(position_id) {
        Ok(p) => p,
        Err(e) => {
            return Err(e);
        },
    };
    if !position.trader.eq(trader) {
        proof {
            assert forall|p: Position|
                old(store).view().contains(p) && p.position_id == position_id implies p.trader@
                != trader@ by {
                crate::store::lemma_id_unique(old(store).view(), p, position);
            }
        }
        return Err(ContractError::Unauthorized);
    }
    let new_margin: u128 = match position.margin.checked_add(amount) {
        Some(m) => m,
        None => {
            proof {
                assert forall|p: Position|
                    old(store).view().contains(p) && p.position_id == position_id implies p.margin
                    + amount > u128::MAX as int by {
                    crate::store::lemma_id_unique(old(store).view(), p, position);
                }
            }
            return Err(ContractError::Overflow);
        },
    };
    let mut updated: Position = position.duplicate();
    updated.margin = new_margin;
    store.store_position(&updated);
    proof {
        assert forall|p: Position|
            old(store).view().contains(p) && p.position_id == position_id implies p == position by {
            crate::store::lemma_id_unique(old(store).view(), p, position);
        }
    }
    Ok(())
}

/// Updates a position's take-profit and stop-loss levels.  The levels are
/// validated against the stored entry price — not the live price — and at
/// least one of them must be given.
pub fn update_tp_sl(
    state: &State,
    store: &mut PositionStore,
    position_id: u64,
    trader: &String,
    take_profit: Option<u128>,
    stop_loss: Option<u128>,
) -> (r: Result<(), ContractError>)
    requires
        old(store).well_formed(),
    ensures
        final(store).well_formed(),
        r is Err ==> *final(store) == *old(store),
        !crate::store::spec_contains_id(old(store).view(), position_id) ==> r == Err::<
            (),
            ContractError,
        >(ContractError::PositionNotFound),
        (forall|p: Position|
            old(store).view().contains(p) && p.position_id == position_id ==> ({
                let e = spec_update_tp_sl_error(
                    state.pause,
                    p,
                    trader@,
                    take_profit,
                    stop_loss,
                );
                &&& e is Some ==> r == Err::<(), ContractError>(e->0)
                &&& e is None ==> (r is Ok && (forall|q: Position|
                    final(store).view().contains(q) <==> (q == (Position {
                        take_profit: (if take_profit is Some {
                            take_profit
                        } else {
                            p.take_profit
                        }),
                        stop_loss: (if stop_loss is Some {
                            stop_loss
                        } else {
                            p.stop_loss
                        }),
                        ..p
                    }) || (old(store).view().contains(q) && q.position_id != position_id))))
            })),
{
    let position: Position = match store.read_position(position_id) {
        Ok(p) => p,
        Err(e) => {
            return Err(e);
        },
    };
    proof {
        assert forall|p: Position|
            old(store).view().contains(p) && p.position_id == position_id implies p == position by {
            crate::store::lemma_id_unique(old(store).view(), p, position);
        }
    }
    match crate::guard::require_not_paused(state.pause, UserAction::UpdateTpSl) {
        Ok(_) => {},
        Err(e) => {
            return Err(e);
        },
    }
    match require_position_not_zero(position.size.value) {
        Ok(_) => {},
        Err(e) => {
            return Err(e);
        },
    }
    if !position.trader.eq(trader) {
        return Err(ContractError::Unauthorized);
    }
    if take_profit.is_none() && stop_loss.is_none() {
        return Err(ContractError::NoTakeProfitOrStopLoss);
    }
    let mut updated: Position = position.duplicate();
    match position.side {
        Side::Buy => {
            match take_profit {
                Some(tp) => {
                    if tp <= position.entry_price {
                        return Err(ContractError::TakeProfitTooLow);
                    }
                    updated.take_profit = Some(tp);
                },
                None => {},
            }
            match stop_loss {
                Some(sl) => {
                    if sl > position.entry_price {
                        return Err(ContractError::StopLossTooHigh);
                    }
                    updated.stop_loss = Some(sl);
                },
                None => {},
            }
        },
        Side::Sell => {
            match take_profit {
                Some(tp) => {
                    if tp >= position.entry_price {
                        return Err(ContractError::TakeProfitTooHigh);
                    }
                    updated.take_profit = Some(tp);
                },
                None => {},
            }
            match stop_loss {
                Some(sl) => {
                    if sl < position.entry_price {
                        return Err(ContractError::StopLossTooLow);
                    }
                    updated.stop_loss = Some(sl);
                },
                None => {},
            }
        },
    }
    store.store_position(&updated);
    Ok(())
}

/// The first rejection an update of take-profit/stop-loss levels meets:
/// pause, a closed position, foreign ownership, no level given, or a level
/// on the wrong side of the stored entry price.
pub open spec fn spec_update_tp_sl_error(
    pause: crate::types::PauseType,
    p: Position,
    trader: Seq<char>,
    take_profit: Option<u128>,
    stop_loss: Option<u128>,
) -> Option<ContractError> {
    if spec_action_blocked(pause, UserAction::UpdateTpSl) {
        Option::Some(ContractError::Paused)
    } else if p.size.as_int() == 0 {
        Option::Some(ContractError::PositionIsZero)
    } else if p.trader@ != trader {
        Option::Some(ContractError::Unauthorized)
    } else if take_profit is None && stop_loss is None {
        Option::Some(ContractError::NoTakeProfitOrStopLoss)
    } else if p.side == Side::Buy && take_profit is Some && take_profit->0 <= p.entry_price {
        Option::Some(ContractError::TakeProfitTooLow)
    } else if p.side == Side::Buy && stop_loss is Some && stop_loss->0 > p.entry_price {
        Option::Some(ContractError::StopLossTooHigh)
    } else if p.side == Side::Sell && take_profit is Some && take_profit->0 >= p.entry_price {
        Option::Some(ContractError::TakeProfitTooHigh)
    } else if p.side == Side::Sell && stop_loss is Some && stop_loss->0 < p.entry_price {
        Option::Some(ContractError::StopLossTooLow)
    } else {
        Option::None
    }
}

/// The notional a margin amount opens at a leverage:
/// `margin * leverage / decimals`.
pub fn intended_open_notional(margin_amount: u128, leverage: u128, decimals: u128) -> (r: Result<
    u128,
    ContractError,
>)
    requires
        decimals > 0,
    ensures
        margin_amount as int * leverage as int <= u128::MAX as int ==> (r matches Ok(v)
            && v as int == (margin_amount as int * leverage as int) / decimals as int),
        margin_amount as int * leverage as int > u128::MAX as int ==> r == Err::<
            u128,
            ContractError,
        >(ContractError::Overflow),
{
    checked_mul_div(margin_amount, leverage, decimals)
}


/// The collaborator quotes an open consumes, in the order the host
/// obtains them: the oracle/vAMM price-difference flag, the insurance-fund
/// registration and open flags, the vAMM's own initial margin ratio, the
/// fee quote for the pre-fee notional, and the entry price quoted for the
/// post-fee notional.
#[derive(Clone, Copy, Debug, PartialEq, Eq, Structural)]
pub struct OpenPositionQuotes {
    pub is_over_price_diff_limit: bool,
    pub vamm_is_registered: bool,
    pub vamm_is_open: bool,
    pub vamm_initial_margin_ratio: u128,
    pub spread_fee: u128,
    pub toll_fee: u128,
    pub entry_price: u128,
}

/// The margin left after netting the quoted fees.
pub open spec fn spec_open_new_margin(margin_amount: int, quotes: OpenPositionQuotes) -> int {
    margin_amount - quotes.spread_fee - quotes.toll_fee
}

/// The open notional recomputed from the post-fee margin.
pub open spec fn spec_open_notional(
    margin_amount: int,
    leverage: int,
    decimals: int,
    quotes: OpenPositionQuotes,
) -> int {
    (spec_open_new_margin(margin_amount, quotes) * leverage) / decimals
}

/// The first rejection an open meets, in the order the checks run; `None`
/// when the open is accepted and the swap is issued.
pub open spec fn spec_open_error(
    config: Config,
    state: State,
    trading_config: TradingConfig,
    vamm_map: VammMap,
    whitelist: Seq<String>,
    whitelist_traders: Seq<String>,
    trader: Seq<char>,
    side: Side,
    margin_amount: u128,
    leverage: u128,
    take_profit: Option<u128>,
    stop_loss: Option<u128>,
    block_height: u64,
    q: OpenPositionQuotes,
) -> Option<ContractError> {
    let new_margin = spec_open_new_margin(margin_amount as int, q);
    let open_notional = spec_open_notional(margin_amount as int, leverage as int, config.decimals as int, q);
    let required_ratio = if config.initial_margin_ratio >= q.vamm_initial_margin_ratio {
        config.initial_margin_ratio
    } else {
        q.vamm_initial_margin_ratio
    };
    if q.is_over_price_diff_limit {
        Option::Some(ContractError::OverPriceDiffLimit)
    } else if trading_config.enable_whitelist && !spec_list_contains(whitelist_traders, trader) {
        Option::Some(ContractError::Unauthorized)
    } else if spec_action_blocked(state.pause, UserAction::OpenPosition) {
        Option::Some(ContractError::Paused)
    } else if config.insurance_fund is None {
        Option::Some(ContractError::InsuranceFundNotRegistered)
    } else if !q.vamm_is_registered {
        Option::Some(ContractError::VammNotRegistered)
    } else if !q.vamm_is_open {
        Option::Some(ContractError::VammNotOpen)
    } else if spec_restricted(vamm_map, block_height, whitelist, trader) {
        Option::Some(ContractError::OnlyOneAction)
    } else if margin_amount == 0 || leverage == 0 {
        Option::Some(ContractError::ZeroInput)
    } else if leverage < config.decimals {
        Option::Some(ContractError::LeverageTooLow)
    } else if config.decimals as int * config.decimals as int > u128::MAX as int {
        Option::Some(ContractError::Overflow)
    } else if ((config.decimals as int * config.decimals as int) / (leverage as int)) < required_ratio as int {
        Option::Some(ContractError::Undercollateralized)
    } else if margin_amount as int * leverage as int > u128::MAX as int {
        Option::Some(ContractError::Overflow)
    } else if new_margin < 0 {
        Option::Some(ContractError::Overflow)
    } else if new_margin == 0 {
        Option::Some(ContractError::ZeroInput)
    } else if new_margin * leverage as int > u128::MAX as int {
        Option::Some(ContractError::Overflow)
    } else if open_notional > trading_config.max_notional_size as int {
        Option::Some(ContractError::MaxNotionalSizeExceeded)
    } else if leverage < trading_config.min_leverage {
        Option::Some(ContractError::LeverageBelowMinimum)
    } else if side == Side::Buy && take_profit is Some && take_profit->0 <= q.entry_price {
        Option::Some(ContractError::TakeProfitTooLow)
    } else if side == Side::Buy && stop_loss is Some && stop_loss->0 > q.entry_price {
        Option::Some(ContractError::StopLossTooHigh)
    } else if side == Side::Sell && take_profit is Some && take_profit->0 >= q.entry_price {
        Option::Some(ContractError::TakeProfitTooHigh)
    } else if side == Side::Sell && stop_loss is Some && stop_loss->0 < q.entry_price {
        Option::Some(ContractError::StopLossTooLow)
    } else {
        Option::None
    }
}

/// Opens a position: validates the request against the engine's rules and
/// the given quotes, assigns the next position identifier, persists the
/// pending descriptor and returns the quote-bounded swap request.  Nothing
/// changes when any check fails; opening with leverage below one always
/// fails, whatever the margin.
pub fn open_position(
    config: &Config,
    state: &State,
    trading_config: &TradingConfig,
    vamm_map: &VammMap,
    whitelist: &AddressList,
    whitelist_traders: &AddressList,
    last_position_id: &mut u64,
    pending: &mut crate::pending::PendingSwaps,
    vamm: &String,
    pair: &String,
    trader: &String,
    side: Side,
    margin_amount: u128,
    leverage: u128,
    take_profit: Option<u128>,
    stop_loss: Option<u128>,
    base_asset_limit: u128,
    block_height: u64,
    quotes: &OpenPositionQuotes,
) -> (r: Result<crate::messages::SwapAction, ContractError>)
    requires
        config.decimals > 0,
        old(last_position_id) < u64::MAX,
        old(pending).well_formed(),
    ensures
        final(pending).well_formed(),
        ({
            let e = spec_open_error(
                *config,
                *state,
                *trading_config,
                *vamm_map,
                whitelist.view(),
                whitelist_traders.view(),
                trader@,
                side,
                margin_amount,
                leverage,
                take_profit,
                stop_loss,
                block_height,
                *quotes,
            );
            e is Some ==> r == Err::<crate::messages::SwapAction, ContractError>(e->0)
                && *final(pending) == *old(pending) && *final(last_position_id) == *old(
                last_position_id,
            )
        }),
        ({
            let e = spec_open_error(
                *config,
                *state,
                *trading_config,
                *vamm_map,
                whitelist.view(),
                whitelist_traders.view(),
                trader@,
                side,
                margin_amount,
                leverage,
                take_profit,
                stop_loss,
                block_height,
                *quotes,
            );
            let position_id = (*old(last_position_id) + 1) as u64;
            let new_margin = spec_open_new_margin(margin_amount as int, *quotes);
            let open_notional = spec_open_notional(
                margin_amount as int,
                leverage as int,
                config.decimals as int,
                *quotes,
            );
            let descriptor = TmpSwapInfo {
                position_id,
                vamm: *vamm,
                pair: *pair,
                trader: *trader,
                side,
                margin_amount: new_margin as u128,
                leverage,
                open_notional: open_notional as u128,
                position_notional: 0,
                unrealized_pnl: Integer { negative: false, value: 0 },
                margin_to_vault: Integer { negative: false, value: 0 },
                take_profit,
                stop_loss,
                spread_fee: quotes.spread_fee,
                toll_fee: quotes.toll_fee,
            };
            e is None ==> (*final(last_position_id) == *old(last_position_id) + 1 && (r matches Ok(
                act,
            ) && act == (crate::messages::SwapAction::SwapInput {
                vamm: *vamm,
                direction: (match side {
                    Side::Buy => crate::types::Direction::AddToAmm,
                    Side::Sell => crate::types::Direction::RemoveFromAmm,
                }),
                position_id,
                quote_asset_amount: open_notional as u128,
                base_asset_limit,
                can_go_over_fluctuation: false,
                reply_id: crate::error::ReplyKind::IncreasePosition,
            })) && (forall|t: TmpSwapInfo|
                final(pending).view().contains(t) <==> (t == descriptor || (old(
                    pending,
                ).view().contains(t) && t.position_id != position_id))))
        }),
{
    if quotes.is_over_price_diff_limit {
        return Err(ContractError::OverPriceDiffLimit);
    }
    match crate::guard::is_whitelisted(trading_config, whitelist_traders, trader) {
        Ok(_) => {},
        Err(e) => {
            return Err(e);
        },
    }
    match crate::guard::require_not_paused(state.pause, UserAction::OpenPosition) {
        Ok(_) => {},
        Err(e) => {
            return Err(e);
        },
    }
    match require_vamm(
        &config.insurance_fund,
        quotes.vamm_is_registered,
        quotes.vamm_is_open,
    ) {
        Ok(_) => {},
        Err(e) => {
            return Err(e);
        },
    }
    match require_not_restriction_mode(vamm_map, block_height, whitelist, trader) {
        Ok(_) => {},
        Err(e) => {
            return Err(e);
        },
    }
    match require_non_zero_input(margin_amount) {
        Ok(_) => {},
        Err(e) => {
            return Err(e);
        },
    }
    match require_non_zero_input(leverage) {
        Ok(_) => {},
        Err(e) => {
            return Err(e);
        },
    }
    if leverage < config.decimals {
        return Err(ContractError::LeverageTooLow);
    }

    let leverage_ratio: u128 = match checked_mul_div(config.decimals, config.decimals, leverage) {
        Ok(v) => v,
        Err(e) => {
            return Err(e);
        },
    };
    let required_ratio: u128 = if config.initial_margin_ratio >= quotes.vamm_initial_margin_ratio {
        config.initial_margin_ratio
    } else {
        quotes.vamm_initial_margin_ratio
    };
    match require_additional_margin(Integer::new_positive(leverage_ratio), required_ratio) {
        Ok(_) => {},
        Err(e) => {
            return Err(e);
        },
    }

    match checked_mul_div(margin_amount, leverage, config.decimals) {
        Ok(_) => {},
        Err(e) => {
            return Err(e);
        },
    }
    let after_spread: u128 = match margin_amount.checked_sub(quotes.spread_fee) {
        Some(v) => v,
        None => {
            return Err(ContractError::Overflow);
        },
    };
    let new_margin: u128 = match after_spread.checked_sub(quotes.toll_fee) {
        Some(v) => v,
        None => {
            return Err(ContractError::Overflow);
        },
    };
    match require_non_zero_input(new_margin) {
        Ok(_) => {},
        Err(e) => {
            return Err(e);
        },
    }
    let open_notional: u128 = match checked_mul_div(new_margin, leverage, config.decimals) {
        Ok(v) => v,
        Err(e) => {
            return Err(e);
        },
    };
    match check_max_notional_size(open_notional, trading_config.max_notional_size) {
        Ok(_) => {},
        Err(e) => {
            return Err(e);
        },
    }
    match check_min_leverage(leverage, trading_config.min_leverage) {
        Ok(_) => {},
        Err(e) => {
            return Err(e);
        },
    }

    match side {
        Side::Buy => {
            match take_profit {
                Some(tp) => {
                    if tp <= quotes.entry_price {
                        return Err(ContractError::TakeProfitTooLow);
                    }
                },
                None => {},
            }
            match stop_loss {
                Some(sl) => {
                    if sl > quotes.entry_price {
                        return Err(ContractError::StopLossTooHigh);
                    }
                },
                None => {},
            }
        },
        Side::Sell => {
            match take_profit {
                Some(tp) => {
                    if tp >= quotes.entry_price {
                        return Err(ContractError::TakeProfitTooHigh);
                    }
                },
                None => {},
            }
            match stop_loss {
                Some(sl) => {
                    if sl < quotes.entry_price {
                        return Err(ContractError::StopLossTooLow);
                    }
                },
                None => {},
            }
        },
    }

    let position_id: u64 = *last_position_id + 1;
    *last_position_id = position_id;

    let descriptor: TmpSwapInfo = TmpSwapInfo {
        position_id,
        vamm: vamm.clone(),
        pair: pair.clone(),
        trader: trader.clone(),
        side,
        margin_amount: new_margin,
        leverage,
        open_notional,
        position_notional: 0,
        unrealized_pnl: Integer::zero(),
        margin_to_vault: Integer::zero(),
        take_profit,
        stop_loss,
        spread_fee: quotes.spread_fee,
        toll_fee: quotes.toll_fee,
    };
    pending.store_tmp_swap(&descriptor);

    Ok(
        crate::messages::internal_open_position(
            vamm,
            &side,
            position_id,
            open_notional,
            base_asset_limit,
        ),
    )
}


/// The collaborator quotes a close consumes: the price-difference flag,
/// the fluctuation-limit flag for removing the full size, the quoted
/// notional of the ratio-scaled partial close, and the quoted notional of
/// closing the full size.
#[derive(Clone, Copy, Debug, PartialEq, Eq, Structural)]
pub struct ClosePositionQuotes {
    pub is_over_price_diff_limit: bool,
    pub is_over_fluctuation_limit: bool,
    pub partial_close_notional: u128,
    pub spot_notional: u128,
}

/// Whether a close is split into a partial close: the full close would
/// breach the fluctuation limit and a partial-liquidation ratio below one
/// is configured.  This graceful degradation is deliberate, not an error;
/// with no ratio configured the full close is issued as requested.
pub open spec fn spec_close_is_partial(config: Config, q: ClosePositionQuotes) -> bool {
    q.is_over_fluctuation_limit && 0 < config.partial_liquidation_ratio
        && config.partial_liquidation_ratio < config.decimals
}

/// Closes a position.  When the full close would breach the vAMM's
/// fluctuation limit and partial liquidation is configured, a ratio-scaled
/// partial close is issued instead; otherwise the full size is closed.
pub fn close_position(
    config: &Config,
    state: &State,
    store: &PositionStore,
    vamm_map: &VammMap,
    whitelist: &AddressList,
    pending: &mut crate::pending::PendingSwaps,
    position_id: u64,
    quote_asset_limit: u128,
    trader: &String,
    block_height: u64,
    quotes: &ClosePositionQuotes,
) -> (r: Result<crate::messages::SwapAction, ContractError>)
    requires
        config.decimals > 0,
        store.well_formed(),
        old(pending).well_formed(),
    ensures
        final(pending).well_formed(),
        r is Err ==> *final(pending) == *old(pending),
        !crate::store::spec_contains_id(store.view(), position_id) ==> r == Err::<
            crate::messages::SwapAction,
            ContractError,
        >(ContractError::PositionNotFound),
        (forall|p: Position|
            store.view().contains(p) && p.position_id == position_id && p.trader@ != trader@ ==> r
                == Err::<crate::messages::SwapAction, ContractError>(ContractError::Unauthorized)),
        (forall|p: Position|
            store.view().contains(p) && p.position_id == position_id && p.trader@ == trader@
                && quotes.is_over_price_diff_limit ==> r == Err::<
                crate::messages::SwapAction,
                ContractError,
            >(ContractError::OverPriceDiffLimit)),
        (forall|p: Position|
            store.view().contains(p) && p.position_id == position_id && p.trader@ == trader@
                && !quotes.is_over_price_diff_limit && spec_action_blocked(
                state.pause,
                UserAction::ClosePosition,
            ) ==> r == Err::<crate::messages::SwapAction, ContractError>(ContractError::Paused)),
        (forall|p: Position|
            store.view().contains(p) && p.position_id == position_id && p.trader@ == trader@
                && !quotes.is_over_price_diff_limit && !spec_action_blocked(
                state.pause,
                UserAction::ClosePosition,
            ) && p.size.as_int() == 0 ==> r == Err::<crate::messages::SwapAction, ContractError>(
                ContractError::PositionIsZero,
            )),
        (forall|p: Position|
            store.view().contains(p) && p.position_id == position_id && p.trader@ == trader@
                && !quotes.is_over_price_diff_limit && !spec_action_blocked(
                state.pause,
                UserAction::ClosePosition,
            ) && p.size.as_int() != 0 && spec_restricted(*vamm_map, block_height, whitelist.view(), trader@)
                ==> r == Err::<crate::messages::SwapAction, ContractError>(
                ContractError::OnlyOneAction,
            )),
        (forall|p: Position|
            store.view().contains(p) && p.position_id == position_id && p.trader@ == trader@
                && !quotes.is_over_price_diff_limit && !spec_action_blocked(
                state.pause,
                UserAction::ClosePosition,
            ) && p.size.as_int() != 0 && !spec_restricted(
                *vamm_map,
                block_height,
                whitelist.view(),
                trader@,
            ) && !spec_close_is_partial(*config, *quotes) ==> (r matches Ok(act) && act == (
            crate::messages::SwapAction::SwapOutput {
                vamm: p.vamm,
                direction: p.direction,
                position_id,
                base_asset_amount: p.size.value,
                quote_asset_limit,
                reply_id: crate::error::ReplyKind::ClosePosition,
            }) && (forall|t: TmpSwapInfo|
                final(pending).view().contains(t) <==> (t
                    == crate::messages::spec_close_descriptor(p) || (old(
                    pending,
                ).view().contains(t) && t.position_id != position_id))))),
        (forall|p: Position|
            store.view().contains(p) && p.position_id == position_id && p.trader@ == trader@
                && !quotes.is_over_price_diff_limit && !spec_action_blocked(
                state.pause,
                UserAction::ClosePosition,
            ) && p.size.as_int() != 0 && !spec_restricted(
                *vamm_map,
                block_height,
                whitelist.view(),
                trader@,
            ) && spec_close_is_partial(*config, *quotes) && p.size.value as int
                * config.partial_liquidation_ratio as int <= u128::MAX as int ==> (r matches Ok(
                act,
            ) && act == (crate::messages::SwapAction::SwapInput {
                vamm: p.vamm,
                direction: (if p.size.as_int() > 0 {
                    crate::types::Direction::RemoveFromAmm
                } else {
                    crate::types::Direction::AddToAmm
                }),
                position_id,
                quote_asset_amount: quotes.partial_close_notional,
                base_asset_limit: 0,
                can_go_over_fluctuation: true,
                reply_id: crate::error::ReplyKind::PartialClosePosition,
            }) && (forall|t: TmpSwapInfo|
                final(pending).view().contains(t) <==> (t == (TmpSwapInfo {
                    position_id,
                    vamm: p.vamm,
                    pair: p.pair,
                    trader: p.trader,
                    side: (if p.size.as_int() > 0 {
                        Side::Sell
                    } else {
                        Side::Buy
                    }),
                    margin_amount: p.size.value,
                    leverage: config.decimals,
                    open_notional: quotes.partial_close_notional,
                    position_notional: quotes.spot_notional,
                    unrealized_pnl: (if p.direction == crate::types::Direction::AddToAmm {
                        crate::integer::canonical_integer(
                            quotes.spot_notional as int - p.notional as int,
                        )
                    } else {
                        crate::integer::canonical_integer(
                            p.notional as int - quotes.spot_notional as int,
                        )
                    }),
                    margin_to_vault: Integer { negative: false, value: 0 },
                    take_profit: p.take_profit,
                    stop_loss: p.stop_loss,
                    spread_fee: p.spread_fee,
                    toll_fee: p.toll_fee,
                }) || (old(pending).view().contains(t) && t.position_id != position_id))))),
{
    let position: Position = match store.read_position(position_id) {
        Ok(p) => p,
        Err(e) => {
            return Err(e);
        },
    };
    proof {
        assert forall|p: Position|
            store.view().contains(p) && p.position_id == position_id implies p == position by {
            crate::store::lemma_id_unique(store.view(), p, position);
        }
    }
    if !position.trader.eq(trader) {
        return Err(ContractError::Unauthorized);
    }
    if quotes.is_over_price_diff_limit {
        return Err(ContractError::OverPriceDiffLimit);
    }
    match crate::guard::require_not_paused(state.pause, UserAction::ClosePosition) {
        Ok(_) => {},
        Err(e) => {
            return Err(e);
        },
    }
    match require_position_not_zero(position.size.value) {
        Ok(_) => {},
        Err(e) => {
            return Err(e);
        },
    }
    match require_not_restriction_mode(vamm_map, block_height, whitelist, trader) {
        Ok(_) => {},
        Err(e) => {
            return Err(e);
        },
    }

    if quotes.is_over_fluctuation_limit && 0 < config.partial_liquidation_ratio
        && config.partial_liquidation_ratio < config.decimals {
        let side: Side = crate::types::position_to_side(position.size);
        match checked_mul_div(
            position.size.value,
            config.partial_liquidation_ratio,
            config.decimals,
        ) {
            Ok(_) => {},
            Err(e) => {
                return Err(e);
            },
        }
        let pnl: crate::types::PositionUnrealizedPnlResponse =
            crate::margin::position_notional_unrealized_pnl(&position, quotes.spot_notional);
        let descriptor: TmpSwapInfo = TmpSwapInfo {
            position_id,
            vamm: position.vamm.clone(),
            pair: position.pair.clone(),
            trader: position.trader.clone(),
            side,
            margin_amount: position.size.value,
            leverage: config.decimals,
            open_notional: quotes.partial_close_notional,
            position_notional: pnl.position_notional,
            unrealized_pnl: pnl.unrealized_pnl,
            margin_to_vault: Integer::zero(),
            take_profit: position.take_profit,
            stop_loss: position.stop_loss,
            spread_fee: position.spread_fee,
            toll_fee: position.toll_fee,
        };
        pending.store_tmp_swap(&descriptor);
        Ok(
            crate::messages::swap_input(
                &position.vamm,
                &side,
                position_id,
                quotes.partial_close_notional,
                0,
                true,
                crate::error::ReplyKind::PartialClosePosition,
            ),
        )
    } else {
        Ok(
            crate::messages::internal_close_position(
                pending,
                &position,
                quote_asset_limit,
                crate::error::ReplyKind::ClosePosition,
            ),
        )
    }
}



/// The collaborator quotes a liquidation consumes: the registration and
/// open flags, and the quoted notional of closing the ratio-scaled partial
/// size and the full size.
#[derive(Clone, Copy, Debug, PartialEq, Eq, Structural)]
pub struct LiquidationQuotes {
    pub vamm_is_registered: bool,
    pub vamm_is_open: bool,
    pub partial_notional: u128,
    pub spot_notional: u128,
}

/// Whether a liquidation is split into a partial liquidation: the margin
/// ratio's magnitude still exceeds the liquidation fee and a non-zero
/// partial-liquidation ratio is configured.
pub open spec fn spec_liquidation_is_partial(config: Config, margin_ratio: Integer) -> bool {
    margin_ratio.value > config.liquidation_fee && config.partial_liquidation_ratio != 0
}

/// Liquidates an undercollateralized position.  A healthy margin ratio is
/// rejected; a partial liquidation that would exceed the position's stored
/// notional takes the notional-bounded swap path, never the size-bounded
/// one, so a partial close can never overshoot the position.
pub fn liquidate(
    config: &Config,
    state: &State,
    store: &PositionStore,
    whitelist: &AddressList,
    pending: &mut crate::pending::PendingSwaps,
    tmp_liquidator: &mut Option<String>,
    position_id: u64,
    quote_asset_limit: u128,
    sender: &String,
    margin_ratio: Integer,
    quotes: &LiquidationQuotes,
) -> (r: Result<crate::messages::SwapAction, ContractError>)
    requires
        config.decimals > 0,
        store.well_formed(),
        old(pending).well_formed(),
        margin_ratio.well_formed(),
    ensures
        final(pending).well_formed(),
        r is Err ==> *final(pending) == *old(pending),
        spec_action_blocked(state.pause, UserAction::Liquidate) ==> r == Err::<
            crate::messages::SwapAction,
            ContractError,
        >(ContractError::Paused),
        !spec_action_blocked(state.pause, UserAction::Liquidate)
            && !crate::store::spec_contains_id(store.view(), position_id) ==> r == Err::<
            crate::messages::SwapAction,
            ContractError,
        >(ContractError::PositionNotFound),
        (forall|p: Position|
            store.view().contains(p) && p.position_id == position_id && !spec_action_blocked(
                state.pause,
                UserAction::Liquidate,
            ) && spec_list_contains(whitelist.view(), p.trader@) && sender@ != p.trader@ ==> r
                == Err::<crate::messages::SwapAction, ContractError>(
                ContractError::TraderIsWhitelisted,
            )),
        (forall|p: Position|
            store.view().contains(p) && p.position_id == position_id && !spec_action_blocked(
                state.pause,
                UserAction::Liquidate,
            ) && !(spec_list_contains(whitelist.view(), p.trader@) && sender@ != p.trader@)
                && config.insurance_fund is Some && quotes.vamm_is_registered
                && quotes.vamm_is_open && margin_ratio.as_int() > config.maintenance_margin_ratio
                ==> r == Err::<crate::messages::SwapAction, ContractError>(
                ContractError::Overcollateralized,
            )),
        (forall|p: Position|
            store.view().contains(p) && p.position_id == position_id && !spec_action_blocked(
                state.pause,
                UserAction::Liquidate,
            ) && !(spec_list_contains(whitelist.view(), p.trader@) && sender@ != p.trader@)
                && config.insurance_fund is Some && quotes.vamm_is_registered
                && quotes.vamm_is_open && margin_ratio.as_int()
                <= config.maintenance_margin_ratio && p.size.as_int() != 0
                && !spec_liquidation_is_partial(*config, margin_ratio) ==> (r matches Ok(act)
                && act == (crate::messages::SwapAction::SwapOutput {
                vamm: p.vamm,
                direction: p.direction,
                position_id,
                base_asset_amount: p.size.value,
                quote_asset_limit,
                reply_id: crate::error::ReplyKind::Liquidation,
            }) && *final(tmp_liquidator) == Some(*sender) && (forall|t: TmpSwapInfo|
                final(pending).view().contains(t) <==> (t
                    == crate::messages::spec_close_descriptor(p) || (old(
                    pending,
                ).view().contains(t) && t.position_id != position_id))))),
        (forall|p: Position|
            store.view().contains(p) && p.position_id == position_id && !spec_action_blocked(
                state.pause,
                UserAction::Liquidate,
            ) && !(spec_list_contains(whitelist.view(), p.trader@) && sender@ != p.trader@)
                && config.insurance_fund is Some && quotes.vamm_is_registered
                && quotes.vamm_is_open && margin_ratio.as_int()
                <= config.maintenance_margin_ratio && p.size.as_int() != 0
                && spec_liquidation_is_partial(*config, margin_ratio) && p.size.value as int
                * config.partial_liquidation_ratio as int <= u128::MAX as int
                && quote_asset_limit as int * config.partial_liquidation_ratio as int
                <= u128::MAX as int ==> (r is Ok && *final(tmp_liquidator) == Some(*sender)
                && (quotes.partial_notional > p.notional ==> r == Ok::<
                crate::messages::SwapAction,
                ContractError,
            >(crate::messages::SwapAction::SwapInput {
                vamm: p.vamm,
                direction: p.direction,
                position_id,
                quote_asset_amount: p.notional,
                base_asset_limit: 0,
                can_go_over_fluctuation: true,
                reply_id: crate::error::ReplyKind::PartialLiquidation,
            })) && (quotes.partial_notional <= p.notional ==> r == Ok::<
                crate::messages::SwapAction,
                ContractError,
            >(crate::messages::SwapAction::SwapOutput {
                vamm: p.vamm,
                direction: p.direction,
                position_id,
                base_asset_amount: ((p.size.value as int * config.partial_liquidation_ratio as int)
                    / config.decimals as int) as u128,
                quote_asset_limit: ((quote_asset_limit as int
                    * config.partial_liquidation_ratio as int) / config.decimals as int) as u128,
                reply_id: crate::error::ReplyKind::PartialLiquidation,
            })))),
{
    match crate::guard::require_not_paused(state.pause, UserAction::Liquidate) {
        Ok(_) => {},
        Err(e) => {
            return Err(e);
        },
    }
    let position: Position = match store.read_position(position_id) {
        Ok(p) => p,
        Err(e) => {
            return Err(e);
        },
    };
    proof {
        assert forall|p: Position|
            store.view().contains(p) && p.position_id == position_id implies p == position by {
            crate::store::lemma_id_unique(store.view(), p, position);
        }
    }
    if whitelist.contains(&position.trader) && !sender.eq(&position.trader) {
        return Err(ContractError::TraderIsWhitelisted);
    }
    match require_vamm(
        &config.insurance_fund,
        quotes.vamm_is_registered,
        quotes.vamm_is_open,
    ) {
        Ok(_) => {},
        Err(e) => {
            return Err(e);
        },
    }
    match require_insufficient_margin(margin_ratio, config.maintenance_margin_ratio) {
        Ok(_) => {},
        Err(e) => {
            return Err(e);
        },
    }
    match require_position_not_zero(position.size.value) {
        Ok(_) => {},
        Err(e) => {
            return Err(e);
        },
    }

    if margin_ratio.value > config.liquidation_fee && config.partial_liquidation_ratio != 0 {
        let partial_position_size: u128 = match checked_mul_div(
            position.size.value,
            config.partial_liquidation_ratio,
            config.decimals,
        ) {
            Ok(v) => v,
            Err(e) => {
                return Err(e);
            },
        };
        let partial_asset_limit: u128 = match checked_mul_div(
            quote_asset_limit,
            config.partial_liquidation_ratio,
            config.decimals,
        ) {
            Ok(v) => v,
            Err(e) => {
                return Err(e);
            },
        };
        let pnl: crate::types::PositionUnrealizedPnlResponse =
            crate::margin::position_notional_unrealized_pnl(&position, quotes.spot_notional);
        let side: Side = crate::types::position_to_side(position.size);
        let descriptor: TmpSwapInfo = TmpSwapInfo {
            position_id,
            vamm: position.vamm.clone(),
            pair: position.pair.clone(),
            trader: position.trader.clone(),
            side,
            margin_amount: partial_position_size,
            leverage: 0,
            open_notional: quotes.partial_notional,
            position_notional: 0,
            unrealized_pnl: pnl.unrealized_pnl,
            margin_to_vault: Integer::zero(),
            take_profit: position.take_profit,
            stop_loss: position.stop_loss,
            spread_fee: position.spread_fee,
            toll_fee: position.toll_fee,
        };
        pending.store_tmp_swap(&descriptor);
        *tmp_liquidator = Some(sender.clone());
        let close_side: Side = crate::types::direction_to_side(&position.direction);
        if quotes.partial_notional > position.notional {
            Ok(
                crate::messages::swap_input(
                    &position.vamm,
                    &close_side,
                    position_id,
                    position.notional,
                    0,
                    true,
                    crate::error::ReplyKind::PartialLiquidation,
                ),
            )
        } else {
            Ok(
                crate::messages::swap_output(
                    &position.vamm,
                    &close_side,
                    position_id,
                    partial_position_size,
                    partial_asset_limit,
                    crate::error::ReplyKind::PartialLiquidation,
                ),
            )
        }
    } else {
        let action: crate::messages::SwapAction = crate::messages::internal_close_position(
            pending,
            &position,
            quote_asset_limit,
            crate::error::ReplyKind::Liquidation,
        );
        *tmp_liquidator = Some(sender.clone());
        Ok(action)
    }
}

/// Withdraws margin from a position: settles funding first, rejects any
/// resulting bad debt, and rejects a withdrawal that would leave the free
/// collateral negative.  The returned amount and accrued fees are paid out
/// by the host.
pub fn withdraw_margin(
    config: &Config,
    state: &State,
    store: &mut PositionStore,
    position_id: u64,
    amount: u128,
    trader: &String,
    latest_premium_fraction: Integer,
    free_collateral: Integer,
    vamm_is_registered: bool,
    vamm_is_open: bool,
) -> (r: Result<(u128, u128), ContractError>)
    requires
        config.decimals > 0,
        old(store).well_formed(),
        latest_premium_fraction.well_formed(),
        free_collateral.well_formed(),
    ensures
        final(store).well_formed(),
        r is Err ==> *final(store) == *old(store),
        config.insurance_fund is None ==> r == Err::<(u128, u128), ContractError>(
            ContractError::InsuranceFundNotRegistered,
        ),
        config.insurance_fund is Some && !vamm_is_registered ==> r == Err::<
            (u128, u128),
            ContractError,
        >(ContractError::VammNotRegistered),
        config.insurance_fund is Some && vamm_is_registered && !vamm_is_open ==> r == Err::<
            (u128, u128),
            ContractError,
        >(ContractError::VammNotOpen),
        config.insurance_fund is Some && vamm_is_registered && vamm_is_open
            && spec_action_blocked(state.pause, UserAction::WithdrawMargin) ==> r == Err::<
            (u128, u128),
            ContractError,
        >(ContractError::Paused),
        config.insurance_fund is Some && vamm_is_registered && vamm_is_open
            && !spec_action_blocked(state.pause, UserAction::WithdrawMargin) && amount == 0 ==> r
            == Err::<(u128, u128), ContractError>(ContractError::ZeroInput),
        config.insurance_fund is Some && vamm_is_registered && vamm_is_open
            && !spec_action_blocked(state.pause, UserAction::WithdrawMargin) && amount != 0
            && !crate::store::spec_contains_id(old(store).view(), position_id) ==> r == Err::<
            (u128, u128),
            ContractError,
        >(ContractError::PositionNotFound),
        (forall|p: Position|
            old(store).view().contains(p) && p.position_id == position_id
                && config.insurance_fund is Some && vamm_is_registered && vamm_is_open
                && !spec_action_blocked(state.pause, UserAction::WithdrawMargin) && amount != 0
                && p.trader@ != trader@ ==> r == Err::<(u128, u128), ContractError>(
                ContractError::Unauthorized,
            )),
        (forall|p: Position|
            old(store).view().contains(p) && p.position_id == position_id
                && config.insurance_fund is Some && vamm_is_registered && vamm_is_open
                && !spec_action_blocked(state.pause, UserAction::WithdrawMargin) && amount != 0
                && p.trader@ == trader@ && spec_withdraw_feasible(
                p,
                amount,
                latest_premium_fraction,
                config.decimals,
            ) ==> ({
                let unclamped = spec_withdraw_unclamped(
                    p,
                    amount,
                    latest_premium_fraction,
                    config.decimals,
                );
                &&& unclamped < 0 ==> r == Err::<(u128, u128), ContractError>(
                    ContractError::InsufficientMargin,
                )
                &&& unclamped >= 0 && free_collateral.as_int() - amount < 0 ==> r == Err::<
                    (u128, u128),
                    ContractError,
                >(ContractError::InsufficientCollateral)
                &&& unclamped >= 0 && free_collateral.as_int() - amount >= 0 && p.spread_fee
                    + p.toll_fee <= u128::MAX as int ==> (r == Ok::<(u128, u128), ContractError>(
                    (amount, (p.spread_fee + p.toll_fee) as u128),
                ) && (forall|q: Position|
                    final(store).view().contains(q) <==> (q == (Position {
                        margin: unclamped as u128,
                        last_updated_premium_fraction: latest_premium_fraction,
                        ..p
                    }) || (old(store).view().contains(q) && q.position_id != position_id))))
            })),
{
    match require_vamm(&config.insurance_fund, vamm_is_registered, vamm_is_open) {
        Ok(_) => {},
        Err(e) => {
            return Err(e);
        },
    }
    match crate::guard::require_not_paused(state.pause, UserAction::WithdrawMargin) {
        Ok(_) => {},
        Err(e) => {
            return Err(e);
        },
    }
    match require_non_zero_input(amount) {
        Ok(_) => {},
        Err(e) => {
            return Err(e);
        },
    }
    let position: Position = match store.read_position(position_id) {
        Ok(p) => p,
        Err(e) => {
            return Err(e);
        },
    };
    proof {
        assert forall|p: Position|
            old(store).view().contains(p) && p.position_id == position_id implies p == position by {
            crate::store::lemma_id_unique(old(store).view(), p, position);
        }
    }
    if !position.trader.eq(trader) {
        return Err(ContractError::Unauthorized);
    }
    if !withdraw_bounds_hold(&position, amount, latest_premium_fraction, config.decimals) {
        return Err(ContractError::Overflow);
    }
    let remain: crate::types::RemainMarginResponse =
        crate::margin::calc_remain_margin_with_funding_payment(
        &position,
        Integer::new_negative(amount),
        latest_premium_fraction,
        config.decimals,
    );
    match require_bad_debt(remain.bad_debt) {
        Ok(_) => {},
        Err(e) => {
            return Err(e);
        },
    }
    let after: Integer = match free_collateral.checked_sub(&Integer::new_positive(amount)) {
        Some(v) => v,
        None => {
            // out of the 128-bit range only far below zero
            return Err(ContractError::InsufficientCollateral);
        },
    };
    if after.is_negative() {
        return Err(ContractError::InsufficientCollateral);
    }
    let fees: u128 = match position.spread_fee.checked_add(position.toll_fee) {
        Some(v) => v,
        None => {
            return Err(ContractError::Overflow);
        },
    };
    let mut updated: Position = position.duplicate();
    updated.margin = remain.margin;
    updated.last_updated_premium_fraction = remain.latest_premium_fraction;
    store.store_position(&updated);
    Ok((amount, fees))
}

/// The unclamped margin a withdrawal of `amount` would leave, after
/// settling funding.
pub open spec fn spec_withdraw_unclamped(
    p: Position,
    amount: u128,
    latest_premium_fraction: Integer,
    decimals: u128,
) -> int {
    crate::margin::spec_unclamped_margin(
        p.margin as int,
        -(amount as int),
        crate::margin::spec_funding_payment(
            p.size.as_int(),
            p.last_updated_premium_fraction.as_int(),
            latest_premium_fraction.as_int(),
            decimals as int,
        ),
    )
}

/// The intermediate values of a withdrawal stay within the 128-bit range.
pub open spec fn spec_withdraw_feasible(
    p: Position,
    amount: u128,
    latest_premium_fraction: Integer,
    decimals: u128,
) -> bool {
    let funding = crate::margin::spec_funding_payment(
        p.size.as_int(),
        p.last_updated_premium_fraction.as_int(),
        latest_premium_fraction.as_int(),
        decimals as int,
    );
    &&& abs_int(latest_premium_fraction.as_int() - p.last_updated_premium_fraction.as_int())
        <= u128::MAX as int
    &&& abs_int(
        (latest_premium_fraction.as_int() - p.last_updated_premium_fraction.as_int())
            * p.size.as_int(),
    ) <= u128::MAX as int
    &&& abs_int(spec_withdraw_unclamped(p, amount, latest_premium_fraction, decimals))
        <= u128::MAX as int
    &&& abs_int(-(amount as int) - funding) <= u128::MAX as int
}

/// The executable check behind `spec_withdraw_feasible`.
fn withdraw_bounds_hold(
    p: &Position,
    amount: u128,
    latest_premium_fraction: Integer,
    decimals: u128,
) -> (r: bool)
    requires
        p.well_formed(),
        latest_premium_fraction.well_formed(),
        decimals > 0,
    ensures
        r == spec_withdraw_feasible(*p, amount, latest_premium_fraction, decimals),
{
    let diff: Integer = match latest_premium_fraction.checked_sub(
        &p.last_updated_premium_fraction,
    ) {
        Some(v) => v,
        None => {
            return false;
        },
    };
    let product: Integer = match diff.checked_mul(&p.size) {
        Some(v) => v,
        None => {
            return false;
        },
    };
    let funding: Integer = product.checked_div(&Integer::new_positive(decimals)).unwrap();
    let neg_amount: Integer = Integer::new_negative(amount);
    let after_delta: Integer = match neg_amount.checked_sub(&funding) {
        Some(v) => v,
        None => {
            return false;
        },
    };
    match after_delta.checked_add(&Integer::new_positive(p.margin)) {
        Some(_) => true,
        None => false,
    }
}

/// Settles funding for a market: validates it and returns the settle
/// request; the premium fraction arrives through the continuation.
pub fn pay_funding(config: &Config, vamm: &String, vamm_is_registered: bool, vamm_is_open: bool)
    -> (r: Result<crate::messages::SwapAction, ContractError>)
    ensures
        config.insurance_fund is None ==> r == Err::<crate::messages::SwapAction, ContractError>(
            ContractError::InsuranceFundNotRegistered,
        ),
        config.insurance_fund is Some && !vamm_is_registered ==> r == Err::<
            crate::messages::SwapAction,
            ContractError,
        >(ContractError::VammNotRegistered),
        config.insurance_fund is Some && vamm_is_registered && !vamm_is_open ==> r == Err::<
            crate::messages::SwapAction,
            ContractError,
        >(ContractError::VammNotOpen),
        config.insurance_fund is Some && vamm_is_registered && vamm_is_open ==> r == Ok::<
            crate::messages::SwapAction,
            ContractError,
        >(crate::messages::SwapAction::SettleFunding {
            vamm: *vamm,
            reply_id: crate::error::ReplyKind::PayFunding,
        }),
{
    match require_vamm(&config.insurance_fund, vamm_is_registered, vamm_is_open) {
        Ok(_) => {},
        Err(e) => {
            return Err(e);
        },
    }
    Ok(
        crate::messages::SwapAction::SettleFunding {
            vamm: vamm.clone(),
            reply_id: crate::error::ReplyKind::PayFunding,
        },
    )
}


/// Rejects a market whose vAMM price has drifted past the oracle spread
/// limit, as the host's query reports it.
pub fn require_is_not_over_spread_limit(is_over_spread_limit: bool) -> (r: Result<
    (),
    ContractError,
>)
    ensures
        r is Err <==> is_over_spread_limit,
        r is Err ==> r == Err::<(), ContractError>(ContractError::OverSpreadLimit),
{
    if is_over_spread_limit {
        Err(ContractError::OverSpreadLimit)
    } else {
        Ok(())
    }
}

/// Whether closing the position at the given reserves would leave bad
/// debt: the simulated closing value plus the settled margin falls short
/// of zero.
pub fn position_is_bad_debt(
    position: &Position,
    quote_asset_reserve: u128,
    base_asset_reserve: u128,
    latest_premium_fraction: Integer,
    decimals: u128,
) -> (r: Result<bool, ContractError>)
    requires
        position.well_formed(),
        latest_premium_fraction.well_formed(),
        decimals > 0,
        quote_asset_reserve > 0,
        base_asset_reserve > 0,
        crate::amm::pool_k(quote_asset_reserve, base_asset_reserve) <= u128::MAX as int,
    ensures
        r is Ok <==> spec_bad_debt_feasible(
            *position,
            quote_asset_reserve,
            base_asset_reserve,
            latest_premium_fraction.as_int(),
            decimals as int,
        ),
        (r matches Ok(b) ==> ({
            let quoted = spec_simulated_close_notional(
                *position,
                quote_asset_reserve,
                base_asset_reserve,
            );
            let pnl = crate::margin::spec_unrealized_pnl(
                position.direction,
                position.notional as int,
                quoted,
            );
            let funding = crate::margin::spec_funding_payment(
                position.size.as_int(),
                position.last_updated_premium_fraction.as_int(),
                latest_premium_fraction.as_int(),
                decimals as int,
            );
            b == (crate::margin::spec_unclamped_margin(position.margin as int, pnl, funding) < 0)
        })),
{
    let simulated: u128 = match crate::amm::get_output_price_with_reserves(
        &position.direction,
        position.size.value,
        quote_asset_reserve,
        base_asset_reserve,
    ) {
        Ok(v) => v,
        Err(e) => {
            return Err(e);
        },
    };
    let quoted: Integer = Integer::new_positive(simulated);
    let recorded: Integer = Integer::new_positive(position.notional);
    let margin_delta: Integer = match position.direction {
        crate::types::Direction::AddToAmm => quoted.checked_sub(&recorded).unwrap(),
        crate::types::Direction::RemoveFromAmm => recorded.checked_sub(&quoted).unwrap(),
    };
    if !settlement_bounds_hold(position, margin_delta, latest_premium_fraction, decimals) {
        return Err(ContractError::Overflow);
    }
    let remain: crate::types::RemainMarginResponse =
        crate::margin::calc_remain_margin_with_funding_payment(
        position,
        margin_delta,
        latest_premium_fraction,
        decimals,
    );
    Ok(remain.bad_debt != 0)
}

/// When a bad-debt check succeeds: the simulated close itself is
/// expressible over the reserves and the settlement's intermediate values
/// stay within the 128-bit range.
pub open spec fn spec_bad_debt_feasible(
    position: Position,
    quote_asset_reserve: u128,
    base_asset_reserve: u128,
    latest: int,
    decimals: int,
) -> bool {
    let quoted = spec_simulated_close_notional(position, quote_asset_reserve, base_asset_reserve);
    let pnl = crate::margin::spec_unrealized_pnl(position.direction, position.notional as int, quoted);
    &&& (position.direction == crate::types::Direction::AddToAmm
        ==> base_asset_reserve + position.size.value <= u128::MAX as int)
    &&& (position.direction == crate::types::Direction::RemoveFromAmm
        ==> position.size.value < base_asset_reserve)
    &&& spec_settlement_feasible(position, pnl, latest, decimals)
}

/// The notional a full close would realize at the given reserves, with
/// the pool-favoring rounding.
pub open spec fn spec_simulated_close_notional(
    position: Position,
    quote_asset_reserve: u128,
    base_asset_reserve: u128,
) -> int {
    let k = crate::amm::pool_k(quote_asset_reserve, base_asset_reserve);
    if position.direction == crate::types::Direction::AddToAmm {
        quote_asset_reserve - crate::amm::ceil_div_int(
            k,
            base_asset_reserve + position.size.value,
        )
    } else {
        crate::amm::ceil_div_int(k, base_asset_reserve - position.size.value)
            - quote_asset_reserve
    }
}

/// The intermediate values of settling a margin delta into a position
/// stay within the 128-bit range.
pub open spec fn spec_settlement_feasible(
    p: Position,
    margin_delta: int,
    latest: int,
    decimals: int,
) -> bool {
    let funding = crate::margin::spec_funding_payment(
        p.size.as_int(),
        p.last_updated_premium_fraction.as_int(),
        latest,
        decimals,
    );
    &&& abs_int(latest - p.last_updated_premium_fraction.as_int()) <= u128::MAX as int
    &&& abs_int((latest - p.last_updated_premium_fraction.as_int()) * p.size.as_int())
        <= u128::MAX as int
    &&& abs_int(margin_delta - funding) <= u128::MAX as int
    &&& abs_int(crate::margin::spec_unclamped_margin(p.margin as int, margin_delta, funding))
        <= u128::MAX as int
}

/// The executable feasibility check behind `position_is_bad_debt`.
fn settlement_bounds_hold(
    p: &Position,
    margin_delta: Integer,
    latest: Integer,
    decimals: u128,
) -> (r: bool)
    requires
        p.well_formed(),
        margin_delta.well_formed(),
        latest.well_formed(),
        decimals > 0,
    ensures
        r == spec_settlement_feasible(*p, margin_delta.as_int(), latest.as_int(), decimals as int),
{
    let diff: Integer = match latest.checked_sub(&p.last_updated_premium_fraction) {
        Some(v) => v,
        None => {
            return false;
        },
    };
    let product: Integer = match diff.checked_mul(&p.size) {
        Some(v) => v,
        None => {
            return false;
        },
    };
    let funding: Integer = product.checked_div(&Integer::new_positive(decimals)).unwrap();
    let after_delta: Integer = match margin_delta.checked_sub(&funding) {
        Some(v) => v,
        None => {
            return false;
        },
    };
    match after_delta.checked_add(&Integer::new_positive(p.margin)) {
        Some(_) => true,
        None => false,
    }
}

/// Whether a position is liquidatable: its margin ratio — replaced by the
/// oracle-based ratio when the market is over the spread limit and the
/// oracle ratio is higher — has fallen to the maintenance margin ratio or
/// below.
pub fn position_is_liquidated(
    margin_ratio: Integer,
    oracle_margin_ratio: Integer,
    is_over_spread_limit: bool,
    maintenance_margin_ratio: u128,
) -> (r: bool)
    requires
        margin_ratio.well_formed(),
        oracle_margin_ratio.well_formed(),
    ensures
        ({
            let effective = if is_over_spread_limit && oracle_margin_ratio.as_int()
                > margin_ratio.as_int() {
                oracle_margin_ratio.as_int()
            } else {
                margin_ratio.as_int()
            };
            r == (effective <= maintenance_margin_ratio as int)
        }),
{
    let effective: Integer = if is_over_spread_limit && oracle_margin_ratio.is_gt(&margin_ratio) {
        oracle_margin_ratio
    } else {
        margin_ratio
    };
    effective.is_le(&Integer::new_positive(maintenance_margin_ratio))
}


/// Realizes bad debt against the vault's prepaid buffer.  While the buffer
/// covers the debt only the bookkeeping moves; otherwise the buffer is
/// drained and the shortfall is returned as the amount to withdraw from
/// the insurance fund.
pub fn realize_bad_debt(state: &mut State, bad_debt: u128) -> (r: u128)
    ensures
        old(state).prepaid_bad_debt > bad_debt ==> (*final(state) == (State {
            prepaid_bad_debt: (old(state).prepaid_bad_debt - bad_debt) as u128,
            ..*old(state)
        }) && r == 0),
        old(state).prepaid_bad_debt <= bad_debt ==> (*final(state) == (State {
            prepaid_bad_debt: 0,
            ..*old(state)
        }) && r as int == bad_debt - old(state).prepaid_bad_debt),
{
    if state.prepaid_bad_debt > bad_debt {
        state.prepaid_bad_debt = state.prepaid_bad_debt - bad_debt;
        0
    } else {
        let shortfall: u128 = bad_debt - state.prepaid_bad_debt;
        state.prepaid_bad_debt = 0;
        shortfall
    }
}

/// The fee settlement of a liquidation: the liquidator's fee is the closed
/// notional scaled by the liquidation-fee ratio, paid out of the remaining
/// margin; any shortfall becomes bad debt and the trader keeps what is
/// left.  Returns the liquidator's fee, the trader's remainder and the fee
/// shortfall.
pub fn liquidation_fee_split(
    closed_notional: u128,
    remaining_margin: u128,
    liquidation_fee: u128,
    decimals: u128,
) -> (r: Result<(u128, u128, u128), ContractError>)
    requires
        decimals > 0,
    ensures
        closed_notional as int * liquidation_fee as int > u128::MAX as int ==> r == Err::<
            (u128, u128, u128),
            ContractError,
        >(ContractError::Overflow),
        closed_notional as int * liquidation_fee as int <= u128::MAX as int ==> ({
            let fee = crate::margin::spec_mul_div(
                closed_notional as int,
                liquidation_fee as int,
                decimals as int,
            );
            &&& fee <= remaining_margin ==> r == Ok::<(u128, u128, u128), ContractError>(
                (fee as u128, (remaining_margin - fee) as u128, 0),
            )
            &&& fee > remaining_margin ==> r == Ok::<(u128, u128, u128), ContractError>(
                (fee as u128, 0, (fee - remaining_margin) as u128),
            )
        }),
{
    let fee: u128 = match checked_mul_div(closed_notional, liquidation_fee, decimals) {
        Ok(v) => v,
        Err(e) => {
            return Err(e);
        },
    };
    if fee <= remaining_margin {
        Ok((fee, remaining_margin - fee, 0))
    } else {
        Ok((fee, 0, fee - remaining_margin))
    }
}

} // verus!

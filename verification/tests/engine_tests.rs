use margined_engine::{
    AddressList, ClosePositionQuotes, Config, ContractError, Direction, Integer,
    LiquidationQuotes, OpenPositionQuotes, PauseType, PendingSwaps, Position, PositionStore,
    ReplyKind, Side, State, SwapAction, TradingConfig, VammMap,
    add_whitelist, close_position, close_position_reply, deposit_margin, free_collateral,
    get_input_price_with_reserves, is_whitelisted, liquidate, open_position, open_position_reply,
    pay_funding, position_notional_unrealized_pnl, set_pause, set_relayer, update_config,
    update_operator, update_tp_sl, update_trading_config, whitelist_trader, withdraw_margin,
};

struct Engine {
    config: Config,
    trading_config: TradingConfig,
    state: State,
    vamm_map: VammMap,
    whitelist: AddressList,
    whitelist_traders: AddressList,
    relayers: AddressList,
    last_position_id: u64,
    pending: PendingSwaps,
    store: PositionStore,
    quote_reserve: u128,
    base_reserve: u128,
}

/// An engine over a 1000:100 pool with zero fees, mirroring the standard
/// test scenario at the given decimal scale.
fn new_engine(decimals: u128) -> Engine {
    let ratio = |percent: u128| decimals * percent / 100;
    Engine {
        config: Config {
            owner: "owner".to_string(),
            insurance_fund: Some("insurance_fund".to_string()),
            fee_pool: "fee_pool".to_string(),
            decimals,
            initial_margin_ratio: ratio(5),
            maintenance_margin_ratio: ratio(5),
            partial_liquidation_ratio: 0,
            tp_sl_spread: ratio(5),
            liquidation_fee: 100,
            operator: None,
        },
        trading_config: TradingConfig {
            enable_whitelist: false,
            max_notional_size: u128::MAX,
            min_leverage: decimals,
        },
        state: State { open_interest_notional: 0, prepaid_bad_debt: 0, pause: PauseType::Nothing },
        vamm_map: VammMap::default(),
        whitelist: AddressList::new(),
        whitelist_traders: AddressList::new(),
        relayers: AddressList::new(),
        last_position_id: 0,
        pending: PendingSwaps::new(),
        store: PositionStore::new(),
        quote_reserve: 1_000 * decimals,
        base_reserve: 100 * decimals,
    }
}

fn clean_quotes(entry_price: u128, vamm_imr: u128) -> OpenPositionQuotes {
    OpenPositionQuotes {
        is_over_price_diff_limit: false,
        vamm_is_registered: true,
        vamm_is_open: true,
        vamm_initial_margin_ratio: vamm_imr,
        spread_fee: 0,
        toll_fee: 0,
        entry_price,
    }
}

/// Opens a position and drives it through the swap continuation, updating
/// the engine's pool, exactly as the host would.
fn drive_open(
    e: &mut Engine,
    trader: &str,
    side: Side,
    margin: u128,
    leverage: u128,
    take_profit: Option<u128>,
    stop_loss: Option<u128>,
) -> Result<Position, ContractError> {
    let notional = margin * leverage / e.config.decimals;
    let base_out = get_input_price_with_reserves(
        &match side {
            Side::Buy => Direction::AddToAmm,
            Side::Sell => Direction::RemoveFromAmm,
        },
        notional,
        e.quote_reserve,
        e.base_reserve,
    )?;
    let entry_price = if base_out == 0 {
        0
    } else {
        notional * e.config.decimals / base_out
    };
    let action = open_position(
        &e.config,
        &e.state,
        &e.trading_config,
        &e.vamm_map,
        &e.whitelist,
        &e.whitelist_traders,
        &mut e.last_position_id,
        &mut e.pending,
        &"vamm".to_string(),
        &"ETH/USDC".to_string(),
        &trader.to_string(),
        side,
        margin,
        leverage,
        take_profit,
        stop_loss,
        0,
        1,
        &clean_quotes(entry_price, e.config.initial_margin_ratio),
    )?;
    let (position_id, quote_amount) = match action {
        SwapAction::SwapInput { position_id, quote_asset_amount, .. } => {
            (position_id, quote_asset_amount)
        },
        _ => panic!("open must issue a quote-bounded swap"),
    };
    // the vAMM executes the swap against the pool
    match side {
        Side::Buy => {
            e.quote_reserve += quote_amount;
            e.base_reserve -= base_out;
        },
        Side::Sell => {
            e.quote_reserve -= quote_amount;
            e.base_reserve += base_out;
        },
    }
    open_position_reply(
        &mut e.store,
        &mut e.pending,
        &e.vamm_map,
        e.config.decimals,
        quote_amount,
        base_out,
        position_id,
        1,
    )
}

const SIX_DP: u128 = 1_000_000;
const NINE_DP: u128 = 1_000_000_000;

#[test]
fn test_instantiate_and_open_one_times_leverage() {
    // an engine at six decimal places with margin ratios of 0.05 and a
    // liquidation fee of 100; opening one unit of margin at 1x leverage
    let mut e = new_engine(SIX_DP);
    assert_eq!(e.config.initial_margin_ratio, 50_000);
    assert_eq!(e.config.maintenance_margin_ratio, 50_000);
    assert_eq!(e.config.liquidation_fee, 100);

    let position = drive_open(&mut e, "alice", Side::Buy, SIX_DP, SIX_DP, None, None).unwrap();
    // the stored margin is the full deposited unit and the notional equals
    // margin times leverage
    assert_eq!(position.margin, 1_000_000);
    assert_eq!(position.notional, 1_000_000);
    // the position size is exactly the constant-product quote
    let expected = get_input_price_with_reserves(
        &Direction::AddToAmm,
        1_000_000,
        1_000 * SIX_DP,
        100 * SIX_DP,
    )
    .unwrap();
    assert_eq!(position.size, Integer::new_positive(expected));
    assert_eq!(e.store.read_position(1).unwrap(), position);
}

#[test]
fn test_open_position_long_exceeds_max_notional_size() {
    let mut e = new_engine(NINE_DP);
    let owner = "owner".to_string();
    update_trading_config(
        &e.config,
        &mut e.trading_config,
        &owner,
        None,
        Some(500 * NINE_DP),
        None,
    )
    .unwrap();

    let err = drive_open(
        &mut e,
        "alice",
        Side::Buy,
        60 * NINE_DP,
        10 * NINE_DP,
        Some(18 * NINE_DP),
        Some(9 * NINE_DP),
    )
    .unwrap_err();
    assert_eq!(err.message(), "Notional size exceeds max notional size");

    // raising the cap above the notional lets the same call through
    update_trading_config(
        &e.config,
        &mut e.trading_config,
        &owner,
        None,
        Some(1_000 * NINE_DP),
        None,
    )
    .unwrap();
    let position = drive_open(
        &mut e,
        "alice",
        Side::Buy,
        60 * NINE_DP,
        10 * NINE_DP,
        Some(18 * NINE_DP),
        Some(9 * NINE_DP),
    )
    .unwrap();
    assert_eq!(position.size, Integer::new_positive(37_500_000_000u128));
    assert_eq!(position.margin, 60 * NINE_DP);
}

#[test]
fn test_open_position_shorts_exceeds_max_notional_size() {
    let mut e = new_engine(NINE_DP);
    let owner = "owner".to_string();
    update_trading_config(
        &e.config,
        &mut e.trading_config,
        &owner,
        None,
        Some(150 * NINE_DP),
        None,
    )
    .unwrap();

    let err = drive_open(
        &mut e,
        "alice",
        Side::Sell,
        40 * NINE_DP,
        5 * NINE_DP,
        Some(7 * NINE_DP),
        Some(13 * NINE_DP),
    )
    .unwrap_err();
    assert_eq!(err.message(), "Notional size exceeds max notional size");

    update_trading_config(
        &e.config,
        &mut e.trading_config,
        &owner,
        None,
        Some(500 * NINE_DP),
        None,
    )
    .unwrap();
    let p1 = drive_open(
        &mut e,
        "alice",
        Side::Sell,
        40 * NINE_DP,
        5 * NINE_DP,
        Some(7 * NINE_DP),
        Some(13 * NINE_DP),
    )
    .unwrap();
    let p2 = drive_open(
        &mut e,
        "alice",
        Side::Sell,
        40 * NINE_DP,
        5 * NINE_DP,
        Some(4 * NINE_DP),
        Some(8 * NINE_DP),
    )
    .unwrap();
    assert_eq!(p1.margin + p2.margin, 80 * NINE_DP);
}

#[test]
fn test_paused_all_by_admin() {
    let mut e = new_engine(NINE_DP);
    set_pause(&mut e.state, &"owner".to_string(), &"owner".to_string(), PauseType::All).unwrap();

    let err =
        drive_open(&mut e, "alice", Side::Buy, NINE_DP, NINE_DP, Some(11 * NINE_DP), Some(8 * NINE_DP))
            .unwrap_err();
    assert_eq!(err.message(), "Margin engine is paused");

    let err = deposit_margin(&e.state, &mut e.store, 1, NINE_DP, &"alice".to_string()).unwrap_err();
    assert_eq!(err.message(), "Margin engine is paused");

    let err = withdraw_margin(
        &e.config,
        &e.state,
        &mut e.store,
        1,
        NINE_DP,
        &"alice".to_string(),
        Integer::zero(),
        Integer::zero(),
        true,
        true,
    )
    .unwrap_err();
    assert_eq!(err.message(), "Margin engine is paused");

    // closing a nonexistent position reports not-found, not paused: the
    // position lookup runs first
    let err = close_position(
        &e.config,
        &e.state,
        &e.store,
        &e.vamm_map,
        &e.whitelist,
        &mut e.pending,
        1,
        0,
        &"alice".to_string(),
        1,
        &ClosePositionQuotes {
            is_over_price_diff_limit: false,
            is_over_fluctuation_limit: false,
            partial_close_notional: 0,
            spot_notional: 0,
        },
    )
    .unwrap_err();
    assert_eq!(err.message(), "Position not found");
}

#[test]
fn test_paused_open_by_admin() {
    let mut e = new_engine(NINE_DP);
    drive_open(&mut e, "alice", Side::Buy, NINE_DP, NINE_DP, Some(11 * NINE_DP), Some(8 * NINE_DP))
        .unwrap();

    set_pause(&mut e.state, &"owner".to_string(), &"owner".to_string(), PauseType::Open).unwrap();

    let err =
        drive_open(&mut e, "alice", Side::Buy, NINE_DP, NINE_DP, Some(11 * NINE_DP), Some(8 * NINE_DP))
            .unwrap_err();
    assert_eq!(err.message(), "Margin engine is paused");

    // deposits, withdrawals and closes still go through
    deposit_margin(&e.state, &mut e.store, 1, NINE_DP, &"alice".to_string()).unwrap();

    let position = e.store.read_position(1).unwrap();
    let spot_quote = 1_000_000_000u128;
    let pnl = position_notional_unrealized_pnl(&position, spot_quote);
    let fc = free_collateral(
        &position,
        &pnl,
        &pnl,
        e.config.initial_margin_ratio,
        e.config.decimals,
    )
    .unwrap();
    withdraw_margin(
        &e.config,
        &e.state,
        &mut e.store,
        1,
        NINE_DP,
        &"alice".to_string(),
        Integer::zero(),
        fc,
        true,
        true,
    )
    .unwrap();

    let action = close_position(
        &e.config,
        &e.state,
        &e.store,
        &e.vamm_map,
        &e.whitelist,
        &mut e.pending,
        1,
        0,
        &"alice".to_string(),
        2,
        &ClosePositionQuotes {
            is_over_price_diff_limit: false,
            is_over_fluctuation_limit: false,
            partial_close_notional: 0,
            spot_notional: spot_quote,
        },
    )
    .unwrap();
    assert!(matches!(action, SwapAction::SwapOutput { .. }));
}

#[test]
fn test_paused_close_by_admin() {
    let mut e = new_engine(NINE_DP);
    drive_open(&mut e, "alice", Side::Buy, NINE_DP, NINE_DP, Some(11 * NINE_DP), Some(8 * NINE_DP))
        .unwrap();

    set_pause(&mut e.state, &"owner".to_string(), &"owner".to_string(), PauseType::Close).unwrap();

    let err = close_position(
        &e.config,
        &e.state,
        &e.store,
        &e.vamm_map,
        &e.whitelist,
        &mut e.pending,
        1,
        0,
        &"alice".to_string(),
        2,
        &ClosePositionQuotes {
            is_over_price_diff_limit: false,
            is_over_fluctuation_limit: false,
            partial_close_notional: 0,
            spot_notional: NINE_DP,
        },
    )
    .unwrap_err();
    assert_eq!(err.message(), "Margin engine is paused");

    let mut liquidator = None;
    let err = liquidate(
        &e.config,
        &e.state,
        &e.store,
        &e.whitelist,
        &mut e.pending,
        &mut liquidator,
        1,
        0,
        &"bob".to_string(),
        Integer::new_positive(10_000),
        &LiquidationQuotes {
            vamm_is_registered: true,
            vamm_is_open: true,
            partial_notional: 0,
            spot_notional: NINE_DP,
        },
    )
    .unwrap_err();
    assert_eq!(err.message(), "Margin engine is paused");

    // opens and deposits still go through
    drive_open(&mut e, "bob", Side::Buy, NINE_DP, NINE_DP, Some(12 * NINE_DP), Some(8 * NINE_DP))
        .unwrap();
    deposit_margin(&e.state, &mut e.store, 1, NINE_DP, &"alice".to_string()).unwrap();
}

#[test]
fn test_cant_be_paused_by_non_admin() {
    let mut e = new_engine(NINE_DP);
    let err = set_pause(&mut e.state, &"alice".to_string(), &"owner".to_string(), PauseType::All)
        .unwrap_err();
    assert_eq!(err.message(), "unauthorized");
    assert_eq!(e.state.pause, PauseType::Nothing);
}

#[test]
fn test_pause_then_unpause_by_admin() {
    let mut e = new_engine(NINE_DP);
    let owner = "owner".to_string();
    set_pause(&mut e.state, &owner, &owner, PauseType::All).unwrap();
    assert_eq!(e.state.pause, PauseType::All);
    set_pause(&mut e.state, &owner, &owner, PauseType::Nothing).unwrap();
    assert_eq!(e.state.pause, PauseType::Nothing);
    drive_open(&mut e, "alice", Side::Buy, NINE_DP, NINE_DP, Some(11 * NINE_DP), Some(8 * NINE_DP))
        .unwrap();
}

#[test]
fn test_cant_unpause_when_already_unpaused_and_vice_versa() {
    let mut e = new_engine(NINE_DP);
    let owner = "owner".to_string();
    let err = set_pause(&mut e.state, &owner, &owner, PauseType::Nothing).unwrap_err();
    assert_eq!(err.message(), "unauthorized");
    set_pause(&mut e.state, &owner, &owner, PauseType::All).unwrap();
    let err = set_pause(&mut e.state, &owner, &owner, PauseType::All).unwrap_err();
    assert_eq!(err.message(), "unauthorized");
}

#[test]
fn test_force_error_open_position_exceeds_price_diff_limit() {
    let mut e = new_engine(NINE_DP);
    let mut quotes = clean_quotes(16 * NINE_DP, e.config.initial_margin_ratio);
    quotes.is_over_price_diff_limit = true;
    let err = open_position(
        &e.config,
        &e.state,
        &e.trading_config,
        &e.vamm_map,
        &e.whitelist,
        &e.whitelist_traders,
        &mut e.last_position_id,
        &mut e.pending,
        &"vamm".to_string(),
        &"ETH/USDC".to_string(),
        &"alice".to_string(),
        Side::Buy,
        60 * NINE_DP,
        10 * NINE_DP,
        Some(18 * NINE_DP),
        Some(9 * NINE_DP),
        0,
        1,
        &quotes,
    )
    .unwrap_err();
    assert_eq!(err.message(), "Over price diff limit oracle & vamm price");
}

#[test]
fn test_force_error_close_position_exceeds_price_diff_limit() {
    let mut e = new_engine(NINE_DP);
    drive_open(&mut e, "alice", Side::Buy, NINE_DP, NINE_DP, Some(11 * NINE_DP), Some(8 * NINE_DP))
        .unwrap();
    let err = close_position(
        &e.config,
        &e.state,
        &e.store,
        &e.vamm_map,
        &e.whitelist,
        &mut e.pending,
        1,
        0,
        &"alice".to_string(),
        2,
        &ClosePositionQuotes {
            is_over_price_diff_limit: true,
            is_over_fluctuation_limit: false,
            partial_close_notional: 0,
            spot_notional: NINE_DP,
        },
    )
    .unwrap_err();
    assert_eq!(err.message(), "Over price diff limit oracle & vamm price");
}

#[test]
fn test_open_position_leverage_too_low() {
    // leverage below one fails with the leverage error for any margin
    let mut e = new_engine(SIX_DP);
    for margin in [1u128, SIX_DP, 1_000_000 * SIX_DP] {
        let err = drive_open(&mut e, "alice", Side::Buy, margin, SIX_DP - 1, None, None)
            .unwrap_err();
        assert_eq!(err.message(), "Leverage must be greater than 1");
    }
    // margin of zero is rejected earlier, as a zero input
    let err = drive_open(&mut e, "alice", Side::Buy, 0, SIX_DP - 1, None, None).unwrap_err();
    assert_eq!(err.message(), "Input must be non-zero");
}

#[test]
fn test_open_position_tp_sl_ordering() {
    let mut e = new_engine(SIX_DP);
    // entry price for one unit at 1x is a little over ten
    let err = drive_open(&mut e, "alice", Side::Buy, SIX_DP, SIX_DP, Some(9 * SIX_DP), None)
        .unwrap_err();
    assert_eq!(err.message(), "TP price is too low");
    let err = drive_open(&mut e, "alice", Side::Buy, SIX_DP, SIX_DP, None, Some(12 * SIX_DP))
        .unwrap_err();
    assert_eq!(err.message(), "SL price is too high");
    let err = drive_open(&mut e, "alice", Side::Sell, SIX_DP, SIX_DP, Some(11 * SIX_DP), None)
        .unwrap_err();
    assert_eq!(err.message(), "TP price is too high");
    let err = drive_open(&mut e, "alice", Side::Sell, SIX_DP, SIX_DP, None, Some(9 * SIX_DP))
        .unwrap_err();
    assert_eq!(err.message(), "SL price is too low");
}

#[test]
fn test_update_tp_sl_against_stored_entry_price() {
    let mut e = new_engine(SIX_DP);
    let position =
        drive_open(&mut e, "alice", Side::Buy, SIX_DP, SIX_DP, None, None).unwrap();
    let entry = position.entry_price;
    let alice = "alice".to_string();

    let err = update_tp_sl(&e.state, &mut e.store, 1, &alice, None, None).unwrap_err();
    assert_eq!(err.message(), "Both take profit and stop loss are not set");
    let err = update_tp_sl(&e.state, &mut e.store, 1, &alice, Some(entry), None).unwrap_err();
    assert_eq!(err.message(), "TP price is too low");
    let err =
        update_tp_sl(&e.state, &mut e.store, 1, &alice, None, Some(entry + 1)).unwrap_err();
    assert_eq!(err.message(), "SL price is too high");
    let err = update_tp_sl(&e.state, &mut e.store, 1, &"bob".to_string(), Some(entry + 1), None)
        .unwrap_err();
    assert_eq!(err.message(), "unauthorized");

    update_tp_sl(&e.state, &mut e.store, 1, &alice, Some(entry + 1), Some(entry - 1)).unwrap();
    let updated = e.store.read_position(1).unwrap();
    assert_eq!(updated.take_profit, Some(entry + 1));
    assert_eq!(updated.stop_loss, Some(entry - 1));
}

#[test]
fn test_liquidate_partial_branch_selection() {
    // a quoted partial notional above the stored notional must take the
    // notional-bounded swap path, never the size-bounded one
    let mut e = new_engine(SIX_DP);
    e.config.partial_liquidation_ratio = 250_000;  // 25%
    let position = drive_open(&mut e, "alice", Side::Buy, SIX_DP, SIX_DP, None, None).unwrap();
    let margin_ratio = Integer::new_positive(10_000);  // below maintenance, above the fee

    let mut liquidator = None;
    let action = liquidate(
        &e.config,
        &e.state,
        &e.store,
        &e.whitelist,
        &mut e.pending,
        &mut liquidator,
        1,
        0,
        &"bob".to_string(),
        margin_ratio,
        &LiquidationQuotes {
            vamm_is_registered: true,
            vamm_is_open: true,
            partial_notional: position.notional + 1,
            spot_notional: position.notional + 1,
        },
    )
    .unwrap();
    match action {
        SwapAction::SwapInput { quote_asset_amount, reply_id, .. } => {
            assert_eq!(quote_asset_amount, position.notional);
            assert_eq!(reply_id, ReplyKind::PartialLiquidation);
        },
        _ => panic!("an overshooting partial close must be notional-bounded"),
    }
    assert_eq!(liquidator, Some("bob".to_string()));

    // a quote within the stored notional takes the size-bounded path
    let action = liquidate(
        &e.config,
        &e.state,
        &e.store,
        &e.whitelist,
        &mut e.pending,
        &mut liquidator,
        1,
        0,
        &"bob".to_string(),
        margin_ratio,
        &LiquidationQuotes {
            vamm_is_registered: true,
            vamm_is_open: true,
            partial_notional: position.notional - 1,
            spot_notional: position.notional - 1,
        },
    )
    .unwrap();
    match action {
        SwapAction::SwapOutput { base_asset_amount, reply_id, .. } => {
            assert_eq!(base_asset_amount, position.size.value * 250_000 / SIX_DP);
            assert_eq!(reply_id, ReplyKind::PartialLiquidation);
        },
        _ => panic!("a partial close within the notional is size-bounded"),
    }
}

#[test]
fn test_liquidate_healthy_position_rejected() {
    let mut e = new_engine(SIX_DP);
    drive_open(&mut e, "alice", Side::Buy, SIX_DP, SIX_DP, None, None).unwrap();
    let mut liquidator = None;
    let err = liquidate(
        &e.config,
        &e.state,
        &e.store,
        &e.whitelist,
        &mut e.pending,
        &mut liquidator,
        1,
        0,
        &"bob".to_string(),
        Integer::new_positive(100_000),
        &LiquidationQuotes {
            vamm_is_registered: true,
            vamm_is_open: true,
            partial_notional: 0,
            spot_notional: SIX_DP,
        },
    )
    .unwrap_err();
    assert_eq!(err.message(), "Position is overcollateralized");
}

#[test]
fn test_liquidate_whitelisted_trader_exempt() {
    let mut e = new_engine(SIX_DP);
    drive_open(&mut e, "alice", Side::Buy, SIX_DP, SIX_DP, None, None).unwrap();
    e.whitelist.add(&"alice".to_string());
    let mut liquidator = None;
    let err = liquidate(
        &e.config,
        &e.state,
        &e.store,
        &e.whitelist,
        &mut e.pending,
        &mut liquidator,
        1,
        0,
        &"bob".to_string(),
        Integer::new_positive(10_000),
        &LiquidationQuotes {
            vamm_is_registered: true,
            vamm_is_open: true,
            partial_notional: 0,
            spot_notional: SIX_DP,
        },
    )
    .unwrap_err();
    assert_eq!(err.message(), "trader is whitelisted");
}

#[test]
fn test_withdraw_margin_checks() {
    let mut e = new_engine(SIX_DP);
    drive_open(&mut e, "alice", Side::Buy, SIX_DP, SIX_DP, None, None).unwrap();
    let alice = "alice".to_string();

    // withdrawing more than the margin leaves bad debt and is rejected
    let err = withdraw_margin(
        &e.config,
        &e.state,
        &mut e.store,
        1,
        2 * SIX_DP,
        &alice,
        Integer::zero(),
        Integer::new_positive(10 * SIX_DP),
        true,
        true,
    )
    .unwrap_err();
    assert_eq!(err.message(), "Insufficient margin");

    // a withdrawal beyond the free collateral is rejected
    let err = withdraw_margin(
        &e.config,
        &e.state,
        &mut e.store,
        1,
        SIX_DP / 2,
        &alice,
        Integer::zero(),
        Integer::new_positive(SIX_DP / 4),
        true,
        true,
    )
    .unwrap_err();
    assert_eq!(err.message(), "Insufficient collateral");

    // a covered withdrawal succeeds and reduces the stored margin
    let (amount, fees) = withdraw_margin(
        &e.config,
        &e.state,
        &mut e.store,
        1,
        SIX_DP / 2,
        &alice,
        Integer::zero(),
        Integer::new_positive(SIX_DP),
        true,
        true,
    )
    .unwrap();
    assert_eq!(amount, SIX_DP / 2);
    assert_eq!(fees, 0);
    assert_eq!(e.store.read_position(1).unwrap().margin, SIX_DP / 2);
}

#[test]
fn test_deposit_margin_checks() {
    let mut e = new_engine(SIX_DP);
    drive_open(&mut e, "alice", Side::Buy, SIX_DP, SIX_DP, None, None).unwrap();
    let err =
        deposit_margin(&e.state, &mut e.store, 1, 0, &"alice".to_string()).unwrap_err();
    assert_eq!(err.message(), "Input must be non-zero");
    let err =
        deposit_margin(&e.state, &mut e.store, 1, SIX_DP, &"bob".to_string()).unwrap_err();
    assert_eq!(err.message(), "unauthorized");
    deposit_margin(&e.state, &mut e.store, 1, SIX_DP, &"alice".to_string()).unwrap();
    assert_eq!(e.store.read_position(1).unwrap().margin, 2 * SIX_DP);
}

#[test]
fn test_restriction_mode_blocks_second_action() {
    let mut e = new_engine(SIX_DP);
    e.vamm_map.last_restriction_block = 1;
    let err = drive_open(&mut e, "alice", Side::Buy, SIX_DP, SIX_DP, None, None).unwrap_err();
    assert_eq!(err.message(), "Only one action allowed");
    // the whitelist bypasses the restriction
    e.whitelist.add(&"alice".to_string());
    drive_open(&mut e, "alice", Side::Buy, SIX_DP, SIX_DP, None, None).unwrap();
}

#[test]
fn test_close_position_full_and_reply() {
    let mut e = new_engine(SIX_DP);
    let position = drive_open(&mut e, "alice", Side::Buy, SIX_DP, SIX_DP, None, None).unwrap();
    // the closing quote at the moved pool
    let spot = margined_engine::get_output_price_with_reserves(
        &Direction::AddToAmm,
        position.size.value,
        e.quote_reserve,
        e.base_reserve,
    )
    .unwrap();
    let action = close_position(
        &e.config,
        &e.state,
        &e.store,
        &e.vamm_map,
        &e.whitelist,
        &mut e.pending,
        1,
        0,
        &"alice".to_string(),
        2,
        &ClosePositionQuotes {
            is_over_price_diff_limit: false,
            is_over_fluctuation_limit: false,
            partial_close_notional: 0,
            spot_notional: spot,
        },
    )
    .unwrap();
    match action {
        SwapAction::SwapOutput { base_asset_amount, reply_id, .. } => {
            assert_eq!(base_asset_amount, position.size.value);
            assert_eq!(reply_id, ReplyKind::ClosePosition);
        },
        _ => panic!("a full close is size-bounded"),
    }
    let outcome = close_position_reply(
        &mut e.store,
        &mut e.pending,
        &e.vamm_map,
        e.config.decimals,
        spot,
        1,
    )
    .unwrap();
    // closing right away realizes the rounding loss only
    assert_eq!(outcome.realized_pnl, Integer::new_negative(position.notional - spot));
    assert_eq!(outcome.margin_payout, position.margin - (position.notional - spot));
    assert_eq!(outcome.bad_debt, 0);
    assert!(e.store.read_position(1).is_err());
}

#[test]
fn test_close_splits_into_partial_over_fluctuation_limit() {
    let mut e = new_engine(SIX_DP);
    e.config.partial_liquidation_ratio = 250_000;  // 25%
    let position = drive_open(&mut e, "alice", Side::Buy, SIX_DP, SIX_DP, None, None).unwrap();
    let action = close_position(
        &e.config,
        &e.state,
        &e.store,
        &e.vamm_map,
        &e.whitelist,
        &mut e.pending,
        1,
        0,
        &"alice".to_string(),
        2,
        &ClosePositionQuotes {
            is_over_price_diff_limit: false,
            is_over_fluctuation_limit: true,
            partial_close_notional: 240_000,
            spot_notional: 990_000,
        },
    )
    .unwrap();
    match action {
        SwapAction::SwapInput { quote_asset_amount, can_go_over_fluctuation, reply_id, .. } => {
            assert_eq!(quote_asset_amount, 240_000);
            assert!(can_go_over_fluctuation);
            assert_eq!(reply_id, ReplyKind::PartialClosePosition);
        },
        _ => panic!("an over-limit close degrades to a partial close"),
    }
    // the position itself is untouched until the continuation arrives
    assert_eq!(e.store.read_position(1).unwrap(), position);

    // with no partial-liquidation ratio configured the full close is
    // issued even over the fluctuation limit
    e.config.partial_liquidation_ratio = 0;
    let action = close_position(
        &e.config,
        &e.state,
        &e.store,
        &e.vamm_map,
        &e.whitelist,
        &mut e.pending,
        1,
        0,
        &"alice".to_string(),
        3,
        &ClosePositionQuotes {
            is_over_price_diff_limit: false,
            is_over_fluctuation_limit: true,
            partial_close_notional: 240_000,
            spot_notional: 990_000,
        },
    )
    .unwrap();
    match action {
        SwapAction::SwapOutput { base_asset_amount, reply_id, .. } => {
            assert_eq!(base_asset_amount, position.size.value);
            assert_eq!(reply_id, ReplyKind::ClosePosition);
        },
        _ => panic!("an unconfigured ratio never splits the close"),
    }
}

#[test]
fn test_pay_funding_and_accumulation() {
    let mut e = new_engine(SIX_DP);
    let action =
        pay_funding(&e.config, &"vamm".to_string(), true, true).unwrap();
    assert_eq!(
        action,
        SwapAction::SettleFunding { vamm: "vamm".to_string(), reply_id: ReplyKind::PayFunding }
    );
    // appending 5 then -3 accumulates to the same value as appending 2 once
    let p1 = Integer::new_positive(5);
    let p2 = Integer::new_negative(3);
    let latest =
        margined_engine::pay_funding_reply(&mut e.vamm_map, p1).unwrap();
    assert_eq!(latest, Integer::new_positive(5));
    let latest =
        margined_engine::pay_funding_reply(&mut e.vamm_map, p2).unwrap();
    assert_eq!(latest, Integer::new_positive(2));
    let mut other = VammMap::default();
    let combined =
        margined_engine::pay_funding_reply(&mut other, Integer::new_positive(2)).unwrap();
    assert_eq!(latest, combined);
    assert_eq!(e.vamm_map.cumulative_premium_fractions.len(), 2);
}

#[test]
fn test_update_config_and_operator() {
    let mut e = new_engine(SIX_DP);
    let owner = "owner".to_string();
    let err = update_config(
        &mut e.config,
        &"mallory".to_string(),
        None,
        None,
        None,
        None,
        None,
        None,
        None,
        None,
    )
    .unwrap_err();
    assert_eq!(err.message(), "unauthorized");
    // a ratio above one is invalid
    let err = update_config(
        &mut e.config,
        &owner,
        None,
        None,
        None,
        Some(SIX_DP + 1),
        None,
        None,
        None,
        None,
    )
    .unwrap_err();
    assert_eq!(err.message(), "Invalid ratio");
    // the maintenance ratio may not exceed the initial ratio
    let err = update_config(
        &mut e.config,
        &owner,
        None,
        None,
        None,
        None,
        Some(60_000),
        None,
        None,
        None,
    )
    .unwrap_err();
    assert_eq!(
        err.message(),
        "Incorrect initialisation of margin ratios, initial >= maintenance"
    );
    update_config(
        &mut e.config,
        &owner,
        Some("addr0001".to_string()),
        None,
        None,
        None,
        None,
        Some(250_000),
        None,
        None,
    )
    .unwrap();
    assert_eq!(e.config.owner, "addr0001".to_string());
    assert_eq!(e.config.partial_liquidation_ratio, 250_000);

    let mut e2 = new_engine(SIX_DP);
    update_operator(&mut e2.config, &owner, Some("op".to_string())).unwrap();
    assert_eq!(e2.config.operator, Some("op".to_string()));
    let err = update_operator(&mut e2.config, &"mallory".to_string(), None).unwrap_err();
    assert_eq!(err.message(), "unauthorized");
}

#[test]
fn test_add_remove_whitelist() {
    let mut e = new_engine(SIX_DP);
    let pauser = "owner".to_string();
    let addr = "addr0001".to_string();
    add_whitelist(&mut e.whitelist, &pauser, &pauser, &addr).unwrap();
    assert!(e.whitelist.contains(&addr));
    margined_engine::remove_whitelist(&mut e.whitelist, &pauser, &pauser, &addr).unwrap();
    assert!(!e.whitelist.contains(&addr));
}

#[test]
fn test_add_remove_then_add_whitelist() {
    let mut e = new_engine(SIX_DP);
    let pauser = "owner".to_string();
    let addr = "addr0001".to_string();
    add_whitelist(&mut e.whitelist, &pauser, &pauser, &addr).unwrap();
    margined_engine::remove_whitelist(&mut e.whitelist, &pauser, &pauser, &addr).unwrap();
    add_whitelist(&mut e.whitelist, &pauser, &pauser, &addr).unwrap();
    assert!(e.whitelist.contains(&addr));
}

#[test]
fn test_not_admin() {
    let mut e = new_engine(SIX_DP);
    let err = add_whitelist(
        &mut e.whitelist,
        &"mallory".to_string(),
        &"owner".to_string(),
        &"addr0001".to_string(),
    )
    .unwrap_err();
    assert_eq!(err.message(), "unauthorized");
}

#[test]
fn test_whitelist_relayer() {
    let mut e = new_engine(SIX_DP);
    let owner = "owner".to_string();
    let relayer = "relayer".to_string();
    let alice = "alice".to_string();
    e.trading_config.enable_whitelist = true;

    // only the owner appoints relayers
    let err = set_relayer(&e.config, &mut e.relayers, &alice, &vec![relayer.clone()]).unwrap_err();
    assert_eq!(err.message(), "unauthorized");
    set_relayer(&e.config, &mut e.relayers, &owner, &vec![relayer.clone()]).unwrap();

    // only a relayer manages the trader whitelist
    let err = whitelist_trader(&e.relayers, &mut e.whitelist_traders, &alice, &vec![alice.clone()])
        .unwrap_err();
    assert_eq!(err.message(), "unauthorized");
    whitelist_trader(&e.relayers, &mut e.whitelist_traders, &relayer, &vec![alice.clone()])
        .unwrap();
    assert!(is_whitelisted(&e.trading_config, &e.whitelist_traders, &alice).is_ok());
    assert!(is_whitelisted(&e.trading_config, &e.whitelist_traders, &"bob".to_string()).is_err());

    margined_engine::remove_whitelist_trader(
        &e.relayers,
        &mut e.whitelist_traders,
        &relayer,
        &vec![alice.clone()],
    )
    .unwrap();
    assert!(is_whitelisted(&e.trading_config, &e.whitelist_traders, &alice).is_err());
}

#[test]
fn test_open_blocked_without_whitelist() {
    let mut e = new_engine(SIX_DP);
    e.trading_config.enable_whitelist = true;
    let err = drive_open(&mut e, "alice", Side::Buy, SIX_DP, SIX_DP, None, None).unwrap_err();
    assert_eq!(err.message(), "unauthorized");
    e.whitelist_traders.add(&"alice".to_string());
    drive_open(&mut e, "alice", Side::Buy, SIX_DP, SIX_DP, None, None).unwrap();
}

#[test]
fn test_open_interest_and_holding_caps_bypass_whitelist() {
    let mut e = new_engine(SIX_DP);
    let alice = "alice".to_string();
    // a positive delta over the cap is rejected and leaves the state alone
    let err = margined_engine::update_open_interest_notional(
        &mut e.state,
        100,
        Integer::new_positive(150),
        &e.whitelist,
        &alice,
    )
    .unwrap_err();
    assert_eq!(err.message(), "open interest exceeds cap");
    assert_eq!(e.state.open_interest_notional, 0);
    // a whitelisted trader bypasses the cap
    e.whitelist.add(&alice);
    margined_engine::update_open_interest_notional(
        &mut e.state,
        100,
        Integer::new_positive(150),
        &e.whitelist,
        &alice,
    )
    .unwrap();
    assert_eq!(e.state.open_interest_notional, 150);
    // a negative delta clamps at zero
    margined_engine::update_open_interest_notional(
        &mut e.state,
        100,
        Integer::new_negative(200),
        &e.whitelist,
        &alice,
    )
    .unwrap();
    assert_eq!(e.state.open_interest_notional, 0);

    let bob = "bob".to_string();
    let err = margined_engine::check_base_asset_holding_cap(10, 20, &e.whitelist, &bob)
        .unwrap_err();
    assert_eq!(err.message(), "base asset holding exceeds cap");
    assert!(margined_engine::check_base_asset_holding_cap(10, 20, &e.whitelist, &alice).is_ok());
    assert!(margined_engine::check_base_asset_holding_cap(0, 20, &e.whitelist, &bob).is_ok());
}

#[test]
fn test_realize_bad_debt_uses_prepaid_buffer() {
    let mut e = new_engine(SIX_DP);
    e.state.prepaid_bad_debt = 100;
    // a covered debt only moves the bookkeeping
    let shortfall = margined_engine::realize_bad_debt(&mut e.state, 40);
    assert_eq!(shortfall, 0);
    assert_eq!(e.state.prepaid_bad_debt, 60);
    // an uncovered debt drains the buffer and reports the remainder for
    // the insurance fund
    let shortfall = margined_engine::realize_bad_debt(&mut e.state, 90);
    assert_eq!(shortfall, 30);
    assert_eq!(e.state.prepaid_bad_debt, 0);
}

#[test]
fn test_liquidation_fee_split_shares() {
    // a 0.01% fee on a closed notional of 10 at 6dp
    let (fee, remainder, shortfall) =
        margined_engine::liquidation_fee_split(10 * SIX_DP, 5_000, 100, SIX_DP).unwrap();
    assert_eq!(fee, 1_000);
    assert_eq!(remainder, 4_000);
    assert_eq!(shortfall, 0);
    // a fee beyond the settled margin becomes bad debt
    let (fee, remainder, shortfall) =
        margined_engine::liquidation_fee_split(10 * SIX_DP, 300, 100, SIX_DP).unwrap();
    assert_eq!(fee, 1_000);
    assert_eq!(remainder, 0);
    assert_eq!(shortfall, 700);
}

#[test]
fn test_try_margin_ratio_matches_margin_ratio() {
    let mut e = new_engine(SIX_DP);
    drive_open(&mut e, "alice", Side::Buy, SIX_DP, SIX_DP, None, None).unwrap();
    let position = e.store.read_position(1).unwrap();
    let quoted = 990_000u128;
    let direct = margined_engine::margin_ratio(
        &position,
        quoted,
        Integer::zero(),
        e.config.decimals,
    );
    let checked = margined_engine::try_margin_ratio(
        &position,
        quoted,
        Integer::zero(),
        e.config.decimals,
    )
    .unwrap();
    assert_eq!(direct, checked);
    // a zero quote on a live position cannot be scaled
    let err = margined_engine::try_margin_ratio(
        &position,
        0,
        Integer::zero(),
        e.config.decimals,
    )
    .unwrap_err();
    assert_eq!(err, ContractError::DivideByZero);
}


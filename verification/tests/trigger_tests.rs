use margined_engine::{
    ContractError, Direction, Integer, PauseType, Position, PositionStore, ReplyKind, SentFunds,
    Side, State, SwapAction, TmpReserveInfo, PendingSwaps,
    direction_to_side, parse_pay_funding, parse_swap, position_to_side, query_position_is_tpsl,
    side_to_direction, tick_candidates, trigger_mutiple_tp_sl, trigger_tp_sl,
    validate_decimal_places, validate_margin_ratios, validate_non_fraction, validate_ratio,
};

const DEC: u128 = 1_000_000;

fn short_position(id: u64, take_profit: u128) -> Position {
    Position {
        position_id: id,
        vamm: "vamm".to_string(),
        pair: "ETH/USDC".to_string(),
        trader: "alice".to_string(),
        side: Side::Sell,
        direction: Direction::RemoveFromAmm,
        size: Integer::new_negative(10 * DEC),
        margin: 10 * DEC,
        notional: 100 * DEC,
        entry_price: 10 * DEC,
        take_profit: Some(take_profit),
        stop_loss: None,
        spread_fee: 0,
        toll_fee: 0,
        last_updated_premium_fraction: Integer::zero(),
        block_time: 0,
        expire_time: 0,
    }
}

fn open_state() -> State {
    State { open_interest_notional: 0, prepaid_bad_debt: 0, pause: PauseType::Nothing }
}

fn pool() -> TmpReserveInfo {
    TmpReserveInfo { quote_asset_reserve: 1_000 * DEC, base_asset_reserve: 100 * DEC }
}

#[test]
fn test_batch_trigger_simulates_price_impact() {
    // two shorts with a take-profit of 12; the first close lifts the
    // buy-back price past the second position's level, so only the first
    // triggers
    let candidates = vec![short_position(1, 12 * DEC), short_position(2, 12 * DEC)];
    let ids =
        trigger_mutiple_tp_sl(&open_state(), true, &candidates, &pool(), DEC, 50_000, true)
            .unwrap();
    assert_eq!(ids, vec![1]);

    // with a take-profit of 14 the second still triggers after the impact
    let candidates = vec![short_position(1, 14 * DEC), short_position(2, 14 * DEC)];
    let ids =
        trigger_mutiple_tp_sl(&open_state(), true, &candidates, &pool(), DEC, 50_000, true)
            .unwrap();
    assert_eq!(ids, vec![1, 2]);
}

#[test]
fn test_batch_trigger_guards() {
    let candidates = vec![short_position(1, 12 * DEC)];
    let err = trigger_mutiple_tp_sl(&open_state(), false, &candidates, &pool(), DEC, 50_000, true)
        .unwrap_err();
    assert_eq!(err.message(), "vAMM is not open");
    let paused =
        State { open_interest_notional: 0, prepaid_bad_debt: 0, pause: PauseType::All };
    let err = trigger_mutiple_tp_sl(&paused, true, &candidates, &pool(), DEC, 50_000, true)
        .unwrap_err();
    assert_eq!(err.message(), "Margin engine is paused");
}

#[test]
fn test_query_position_is_tpsl_checks_without_updates() {
    let reachable = vec![short_position(1, 12 * DEC), short_position(2, 12 * DEC)];
    let r = query_position_is_tpsl(&reachable, &pool(), DEC, 50_000, true);
    assert!(r.is_tpsl);
    let unreachable = vec![short_position(1, DEC), short_position(2, DEC)];
    let r = query_position_is_tpsl(&unreachable, &pool(), DEC, 50_000, true);
    assert!(!r.is_tpsl);
    // asking for stop-losses finds none: the positions carry only
    // take-profits
    let r = query_position_is_tpsl(&reachable, &pool(), DEC, 50_000, false);
    assert!(!r.is_tpsl);
}

#[test]
fn test_trigger_tp_sl_single_position() {
    let mut store = PositionStore::new();
    let position = short_position(1, 12 * DEC);
    store.store_position(&position);
    let mut pending = PendingSwaps::new();
    let action = trigger_tp_sl(
        &open_state(),
        &store,
        &mut pending,
        true,
        1,
        true,
        &pool(),
        DEC,
        50_000,
    )
    .unwrap();
    match action {
        Some(SwapAction::SwapOutput { base_asset_amount, reply_id, .. }) => {
            assert_eq!(base_asset_amount, position.size.value);
            assert_eq!(reply_id, ReplyKind::ClosePosition);
        },
        _ => panic!("the reached take-profit closes the position"),
    }
    // the pending descriptor was written for the continuation
    assert!(pending.read_tmp_swap(1).is_ok());

    // an unreachable level leaves everything untouched
    let mut store2 = PositionStore::new();
    store2.store_position(&short_position(2, DEC));
    let mut pending2 = PendingSwaps::new();
    let action = trigger_tp_sl(
        &open_state(),
        &store2,
        &mut pending2,
        true,
        2,
        true,
        &pool(),
        DEC,
        50_000,
    )
    .unwrap();
    assert!(action.is_none());
    assert!(pending2.read_tmp_swap(2).is_err());
}

#[test]
fn test_parse_swap_event_attributes() {
    let attrs: Vec<(String, String)> = vec![
        ("type".to_string(), "input".to_string()),
        ("quote_asset_amount".to_string(), "600".to_string()),
        ("base_asset_amount".to_string(), "37".to_string()),
        ("position_id".to_string(), "1".to_string()),
    ];
    assert_eq!(parse_swap(&attrs).unwrap(), (600, 37, 1));

    // an output event lists the base amount first
    let attrs: Vec<(String, String)> = vec![
        ("type".to_string(), "output".to_string()),
        ("quote_asset_amount".to_string(), "600".to_string()),
        ("base_asset_amount".to_string(), "37".to_string()),
        ("position_id".to_string(), "2".to_string()),
    ];
    assert_eq!(parse_swap(&attrs).unwrap(), (37, 600, 2));

    let attrs: Vec<(String, String)> =
        vec![("type".to_string(), "neither".to_string())];
    assert_eq!(parse_swap(&attrs), Err(ContractError::CannotParseSwap));
    let attrs: Vec<(String, String)> = vec![];
    assert_eq!(parse_swap(&attrs), Err(ContractError::CannotParseSwap));
}

#[test]
fn test_parse_pay_funding_event_attributes() {
    let attrs: Vec<(String, String)> = vec![
        ("premium_fraction".to_string(), "-5000".to_string()),
        ("_contract_address".to_string(), "vamm".to_string()),
    ];
    let (premium, sender) = parse_pay_funding(&attrs).unwrap();
    assert_eq!(premium, Integer::new_negative(5000));
    assert_eq!(sender, "vamm".to_string());
    let attrs: Vec<(String, String)> =
        vec![("premium_fraction".to_string(), "oops".to_string())];
    assert_eq!(parse_pay_funding(&attrs), Err(ContractError::CannotParseSwap));
}

#[test]
fn test_validate_ratios_and_decimals() {
    assert_eq!(validate_decimal_places(5), Err(ContractError::InvalidDecimalPlaces));
    assert_eq!(validate_decimal_places(6).unwrap(), 1_000_000);
    assert_eq!(validate_decimal_places(9).unwrap(), 1_000_000_000);
    assert!(validate_ratio(DEC, DEC).is_ok());
    assert_eq!(validate_ratio(DEC + 1, DEC), Err(ContractError::InvalidRatio));
    assert!(validate_margin_ratios(50_000, 50_000).is_ok());
    assert_eq!(validate_margin_ratios(50_000, 60_000), Err(ContractError::InvalidMarginRatios));
    assert!(validate_non_fraction(DEC, DEC).is_ok());
    assert_eq!(validate_non_fraction(DEC - 1, DEC), Err(ContractError::InvalidRatio));
}

#[test]
fn test_side_and_direction_conversions() {
    assert_eq!(side_to_direction(&Side::Buy), Direction::AddToAmm);
    assert_eq!(side_to_direction(&Side::Sell), Direction::RemoveFromAmm);
    assert_eq!(direction_to_side(&Direction::AddToAmm), Side::Buy);
    assert_eq!(direction_to_side(&Direction::RemoveFromAmm), Side::Sell);
    // closing a long sells; closing a short (or nothing) buys
    assert_eq!(position_to_side(Integer::new_positive(1)), Side::Sell);
    assert_eq!(position_to_side(Integer::new_negative(1)), Side::Buy);
    assert_eq!(position_to_side(Integer::zero()), Side::Buy);
    assert_eq!(Side::Buy.as_bytes(), &[0u8]);
    assert_eq!(Side::Sell.as_bytes(), &[1u8]);
}

#[test]
fn test_sent_funds_must_match_exactly() {
    let exact = SentFunds { denom: "orai".to_string(), amount: 10, required: 10 };
    assert!(exact.are_sufficient().is_ok());
    let excessive = SentFunds { denom: "orai".to_string(), amount: 11, required: 10 };
    assert_eq!(excessive.are_sufficient(), Err(ContractError::SentFundsExcessive));
    let short = SentFunds { denom: "orai".to_string(), amount: 9, required: 10 };
    assert_eq!(short.are_sufficient(), Err(ContractError::SentFundsInsufficient));
}

#[test]
fn test_batch_candidates_follow_tick_order() {
    // shorts hunting take-profits are visited by ascending price, grouped
    // per tick with ascending identifiers inside a tick
    let mut store = PositionStore::new();
    let mut a = short_position(1, 14 * DEC);
    a.entry_price = 11 * DEC;
    let mut b = short_position(2, 14 * DEC);
    b.entry_price = 9 * DEC;
    let mut c = short_position(3, 14 * DEC);
    c.entry_price = 11 * DEC;
    store.store_position(&a);
    store.store_position(&b);
    store.store_position(&c);

    let (ticks, candidates) = tick_candidates(&store, Side::Sell, true, 10);
    let prices: Vec<u128> = ticks.ticks.iter().map(|t| t.entry_price).collect();
    assert_eq!(prices, vec![9 * DEC, 11 * DEC]);
    let ids: Vec<u64> = candidates.iter().map(|p| p.position_id).collect();
    assert_eq!(ids, vec![2, 1, 3]);

    // the assembled candidates drive the batch decision directly; the
    // first two simulated closes push the buy-back price past the third
    // position's level
    let triggered =
        trigger_mutiple_tp_sl(&open_state(), true, &candidates, &pool(), DEC, 50_000, true)
            .unwrap();
    assert_eq!(triggered, vec![2, 1]);
}


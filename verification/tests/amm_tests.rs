use margined_engine::{
    ContractError, Direction, Side, TmpReserveInfo, TpSlAction, abs_diff, calc_range_start,
    calculate_tp_sl_spread, check_tp_sl_price, get_input_price_with_reserves,
    get_output_price_with_reserves, keccak_256, update_reserve,
};

const DECIMALS: u128 = 1_000_000;

#[test]
fn test_input_price_constant_product() {
    // pool of 1000 quote and 100 base at 6dp; swapping 600 quote in buys
    // 100 - 10^17 / 1.6 * 10^9 = 37.5 base, exactly
    let quote_reserve = 1_000 * DECIMALS;
    let base_reserve = 100 * DECIMALS;
    let out =
        get_input_price_with_reserves(&Direction::AddToAmm, 600 * DECIMALS, quote_reserve, base_reserve)
            .unwrap();
    assert_eq!(out, 37_500_000);
    // shorting for 600 quote out sells 150 base
    let out = get_input_price_with_reserves(
        &Direction::RemoveFromAmm,
        600 * DECIMALS,
        quote_reserve,
        base_reserve,
    )
    .unwrap();
    assert_eq!(out, 150 * DECIMALS);
    // draining the whole quote reserve cannot be quoted
    assert_eq!(
        get_input_price_with_reserves(&Direction::RemoveFromAmm, quote_reserve, quote_reserve, base_reserve),
        Err(ContractError::DivideByZero)
    );
    assert_eq!(
        get_input_price_with_reserves(
            &Direction::RemoveFromAmm,
            quote_reserve + 1,
            quote_reserve,
            base_reserve
        ),
        Err(ContractError::Overflow)
    );
}

#[test]
fn test_output_price_constant_product() {
    let quote_reserve = 1_000 * DECIMALS;
    let base_reserve = 100 * DECIMALS;
    // closing a 50-base long pays out 1000 - 10^17 / 150 * 10^6 quote,
    // rounded against the trader
    let out = get_output_price_with_reserves(
        &Direction::AddToAmm,
        50 * DECIMALS,
        quote_reserve,
        base_reserve,
    )
    .unwrap();
    assert_eq!(out, 1_000 * DECIMALS - 666_666_667);
    // buying back a 50-base short costs 10^17 / 50 * 10^6 - 1000 quote
    let out = get_output_price_with_reserves(
        &Direction::RemoveFromAmm,
        50 * DECIMALS,
        quote_reserve,
        base_reserve,
    )
    .unwrap();
    assert_eq!(out, 1_000 * DECIMALS);
    // rounding favors the pool: a tiny trade still moves a whole unit
    let out = get_output_price_with_reserves(&Direction::AddToAmm, 1, quote_reserve, base_reserve)
        .unwrap();
    assert_eq!(out, 9);
}

#[test]
fn test_update_reserve_simulates_closes() {
    // closing a long returns base to the pool and removes quote
    let mut reserve = TmpReserveInfo { quote_asset_reserve: 1_000, base_asset_reserve: 100 };
    update_reserve(&mut reserve, 200, 30, &Direction::AddToAmm).unwrap();
    assert_eq!(reserve.quote_asset_reserve, 800);
    assert_eq!(reserve.base_asset_reserve, 130);
    // closing a short adds quote back and removes base
    update_reserve(&mut reserve, 100, 30, &Direction::RemoveFromAmm).unwrap();
    assert_eq!(reserve.quote_asset_reserve, 900);
    assert_eq!(reserve.base_asset_reserve, 100);
    // an infeasible adjustment leaves the copy untouched
    let before = reserve;
    assert!(update_reserve(&mut reserve, 901, 1, &Direction::AddToAmm).is_err());
    assert_eq!(reserve, before);
}

#[test]
fn test_check_tp_sl_price_buy_side() {
    // Buy: take-profit fires above the level or within the band
    assert_eq!(
        check_tp_sl_price(110, 100, 50, 5, 5, &Side::Buy),
        TpSlAction::TriggerTakeProfit
    );
    assert_eq!(
        check_tp_sl_price(96, 100, 50, 5, 5, &Side::Buy),
        TpSlAction::TriggerTakeProfit
    );
    // stop-loss fires below the level or within its band
    assert_eq!(
        check_tp_sl_price(49, 100, 50, 2, 2, &Side::Buy),
        TpSlAction::TriggerStopLoss
    );
    assert_eq!(
        check_tp_sl_price(52, 100, 50, 2, 2, &Side::Buy),
        TpSlAction::TriggerStopLoss
    );
    assert_eq!(check_tp_sl_price(75, 100, 50, 2, 2, &Side::Buy), TpSlAction::NoAction);
    // the raw formula has no special case for a zero level: a zero
    // take-profit on a long counts as crossed at any positive price
    assert_eq!(
        check_tp_sl_price(50, 0, 0, 10, 10, &Side::Buy),
        TpSlAction::TriggerTakeProfit
    );
}

#[test]
fn test_check_tp_sl_price_sell_side() {
    assert_eq!(
        check_tp_sl_price(90, 100, 150, 5, 5, &Side::Sell),
        TpSlAction::TriggerTakeProfit
    );
    assert_eq!(
        check_tp_sl_price(104, 100, 150, 5, 5, &Side::Sell),
        TpSlAction::TriggerTakeProfit
    );
    assert_eq!(
        check_tp_sl_price(151, 100, 150, 1, 1, &Side::Sell),
        TpSlAction::TriggerStopLoss
    );
    assert_eq!(
        check_tp_sl_price(149, 100, 150, 1, 1, &Side::Sell),
        TpSlAction::TriggerStopLoss
    );
    assert_eq!(check_tp_sl_price(125, 100, 150, 1, 1, &Side::Sell), TpSlAction::NoAction);
    // a zero take-profit on a short is within its band at a price inside
    // the spread
    assert_eq!(
        check_tp_sl_price(5, 0, 1_000, 10, 10, &Side::Sell),
        TpSlAction::TriggerTakeProfit
    );
}

#[test]
fn test_calculate_tp_sl_spread() {
    // 5% bands at 6dp
    let (tp, sl) = calculate_tp_sl_spread(50_000, 2_000_000, 1_000_000, DECIMALS).unwrap();
    assert_eq!(tp, 100_000);
    assert_eq!(sl, 50_000);
}

#[test]
fn test_abs_diff_values() {
    assert_eq!(abs_diff(7, 10), 3);
    assert_eq!(abs_diff(10, 7), 3);
    assert_eq!(abs_diff(5, 5), 0);
}

#[test]
fn test_calc_range_start_increments_with_carry() {
    assert_eq!(calc_range_start(None), None);
    assert_eq!(calc_range_start(Some(vec![0, 1, 2])), Some(vec![0, 1, 3]));
    assert_eq!(calc_range_start(Some(vec![0, 255])), Some(vec![1, 0]));
    assert_eq!(calc_range_start(Some(vec![255, 255])), Some(vec![0, 0]));
    // the successor of a big-endian id key is the key of the next id
    let id: u64 = 258;
    let next = calc_range_start(Some(id.to_be_bytes().to_vec())).unwrap();
    assert_eq!(next, (id + 1).to_be_bytes().to_vec());
}

#[test]
fn test_keccak_256_market_key() {
    // SHA3-256 of the empty string, per the function's digest family
    let digest = keccak_256(b"");
    assert_eq!(
        digest,
        vec![
            0xa7, 0xff, 0xc6, 0xf8, 0xbf, 0x1e, 0xd7, 0x66, 0x51, 0xc1, 0x47, 0x56, 0xa0, 0x61,
            0xd6, 0x62, 0xf5, 0x80, 0xff, 0x4d, 0xe4, 0x3b, 0x49, 0xfa, 0x82, 0xd8, 0x0a, 0x4b,
            0x80, 0xf8, 0x43, 0x4a
        ]
    );
    assert_eq!(keccak_256(b"orai1vamm").len(), 32);
    assert_ne!(keccak_256(b"orai1vamm"), keccak_256(b"orai1vamm2"));
}

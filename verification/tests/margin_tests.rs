use margined_engine::{
    Direction, Integer, Position, PositionUnrealizedPnlResponse, Side,
    calc_funding_payment, calc_remain_margin_with_funding_payment, checked_mul_div,
    free_collateral, margin_ratio, position_is_bad_debt, position_is_liquidated,
    position_notional_unrealized_pnl, position_with_funding_payment,
    require_is_not_over_spread_limit, ContractError,
};

const DECIMALS: u128 = 1_000_000;

fn margin_position(size: Integer, margin: u128, notional: u128, direction: Direction) -> Position {
    Position {
        position_id: 1,
        vamm: "vamm".to_string(),
        pair: "ETH/USDC".to_string(),
        trader: "alice".to_string(),
        side: match direction {
            Direction::AddToAmm => Side::Buy,
            Direction::RemoveFromAmm => Side::Sell,
        },
        direction,
        size,
        margin,
        notional,
        entry_price: 0,
        take_profit: None,
        stop_loss: None,
        spread_fee: 0,
        toll_fee: 0,
        last_updated_premium_fraction: Integer::zero(),
        block_time: 0,
        expire_time: 0,
    }
}

#[test]
fn test_zero_size_position_has_zero_pnl_and_ratio() {
    let p = margin_position(Integer::zero(), 500, 0, Direction::AddToAmm);
    // whatever notional the collaborator would quote, the result ignores it
    for quote in [0u128, 1, 123_456, u128::MAX] {
        let r = position_notional_unrealized_pnl(&p, quote);
        assert_eq!(r.position_notional, 0);
        assert_eq!(r.unrealized_pnl, Integer::zero());
        let ratio = margin_ratio(&p, quote.min(1_000), Integer::zero(), DECIMALS);
        assert_eq!(ratio, Integer::zero());
    }
}

#[test]
fn test_unrealized_pnl_signs() {
    let long = margin_position(Integer::new_positive(10), 100, 1_000, Direction::AddToAmm);
    let r = position_notional_unrealized_pnl(&long, 1_300);
    assert_eq!(r.unrealized_pnl, Integer::new_positive(300));
    let r = position_notional_unrealized_pnl(&long, 700);
    assert_eq!(r.unrealized_pnl, Integer::new_negative(300));

    let short = margin_position(Integer::new_negative(10), 100, 1_000, Direction::RemoveFromAmm);
    let r = position_notional_unrealized_pnl(&short, 700);
    assert_eq!(r.unrealized_pnl, Integer::new_positive(300));
    let r = position_notional_unrealized_pnl(&short, 1_300);
    assert_eq!(r.unrealized_pnl, Integer::new_negative(300));
}

#[test]
fn test_remaining_margin_clamps_to_zero_with_bad_debt() {
    let p = margin_position(Integer::new_positive(DECIMALS), 100, 1_000, Direction::AddToAmm);
    // a loss larger than the margin leaves zero margin and the shortfall as
    // bad debt
    let r = calc_remain_margin_with_funding_payment(
        &p,
        Integer::new_negative(250),
        Integer::zero(),
        DECIMALS,
    );
    assert_eq!(r.margin, 0);
    assert_eq!(r.bad_debt, 150);
    assert_eq!(r.funding_payment, Integer::zero());
    // a smaller loss leaves the difference and no bad debt
    let r = calc_remain_margin_with_funding_payment(
        &p,
        Integer::new_negative(40),
        Integer::zero(),
        DECIMALS,
    );
    assert_eq!(r.margin, 60);
    assert_eq!(r.bad_debt, 0);
}

#[test]
fn test_remaining_margin_settles_funding() {
    // long of one base unit; premium grew by 30: the long pays 30
    let p = margin_position(Integer::new_positive(DECIMALS), 100, 1_000, Direction::AddToAmm);
    let r = calc_remain_margin_with_funding_payment(
        &p,
        Integer::zero(),
        Integer::new_positive(30),
        DECIMALS,
    );
    assert_eq!(r.funding_payment, Integer::new_positive(30));
    assert_eq!(r.margin, 70);
    assert_eq!(r.bad_debt, 0);
    assert_eq!(r.latest_premium_fraction, Integer::new_positive(30));
}

#[test]
fn test_calc_funding_payment_sign_and_zero_size() {
    let p = margin_position(Integer::new_positive(DECIMALS), 100, 1_000, Direction::AddToAmm);
    // the position receives the negated owed amount
    assert_eq!(
        calc_funding_payment(&p, Integer::new_positive(30), DECIMALS),
        Integer::new_negative(30)
    );
    let zero = margin_position(Integer::zero(), 100, 0, Direction::AddToAmm);
    assert_eq!(calc_funding_payment(&zero, Integer::new_positive(30), DECIMALS), Integer::zero());
}

#[test]
fn test_position_with_funding_payment_clamps() {
    let p = margin_position(Integer::new_positive(DECIMALS), 100, 1_000, Direction::AddToAmm);
    let updated = position_with_funding_payment(&p, Integer::new_positive(30), DECIMALS);
    assert_eq!(updated.margin, 70);
    let drained = position_with_funding_payment(&p, Integer::new_positive(500), DECIMALS);
    assert_eq!(drained.margin, 0);
}

#[test]
fn test_margin_ratio_formula() {
    // margin 100, quoted notional 1_000, no funding, long opened at 1_000:
    // pnl 0, ratio = 100 * 10^6 / 1_000 = 100_000 (0.1 at 6dp)
    let p = margin_position(Integer::new_positive(DECIMALS), 100, 1_000, Direction::AddToAmm);
    let ratio = margin_ratio(&p, 1_000, Integer::zero(), DECIMALS);
    assert_eq!(ratio, Integer::new_positive(100_000));
    // with the quote 5% lower the pnl is -50: ratio = 50 * 10^6 / 950
    let ratio = margin_ratio(&p, 950, Integer::zero(), DECIMALS);
    assert_eq!(ratio, Integer::new_positive(50 * DECIMALS / 950));
}

#[test]
fn test_free_collateral_picks_least_favorable_quote() {
    let p = margin_position(Integer::new_positive(DECIMALS), 100, 1_000, Direction::AddToAmm);
    // spot pnl +300, twap pnl +100: the larger magnitude (spot) is used;
    // positive pnl keeps the minimum collateral at the margin
    let spot = PositionUnrealizedPnlResponse {
        position_notional: 1_300,
        unrealized_pnl: Integer::new_positive(300),
    };
    let twap = PositionUnrealizedPnlResponse {
        position_notional: 1_100,
        unrealized_pnl: Integer::new_positive(100),
    };
    // margin requirement on a long uses the recorded notional:
    // 1_000 * 50_000 / 10^6 = 50
    let r = free_collateral(&p, &spot, &twap, 50_000, DECIMALS).unwrap();
    assert_eq!(r, Integer::new_positive(50));
    // with losses the deeper one counts: account value 100 - 300 = -200,
    // less the requirement of 50
    let spot_loss = PositionUnrealizedPnlResponse {
        position_notional: 700,
        unrealized_pnl: Integer::new_negative(300),
    };
    let twap_loss = PositionUnrealizedPnlResponse {
        position_notional: 900,
        unrealized_pnl: Integer::new_negative(100),
    };
    let r = free_collateral(&p, &spot_loss, &twap_loss, 50_000, DECIMALS).unwrap();
    assert_eq!(r, Integer::new_negative(250));
    // the least favorable quote is the one with the larger magnitude even
    // when both are small: spot -10 beats twap -5
    let spot_small = PositionUnrealizedPnlResponse {
        position_notional: 990,
        unrealized_pnl: Integer::new_negative(10),
    };
    let twap_small = PositionUnrealizedPnlResponse {
        position_notional: 995,
        unrealized_pnl: Integer::new_negative(5),
    };
    let r = free_collateral(&p, &spot_small, &twap_small, 0, DECIMALS).unwrap();
    assert_eq!(r, Integer::new_positive(90));
}

#[test]
fn test_checked_mul_div() {
    assert_eq!(checked_mul_div(6, 7, 2).unwrap(), 21);
    assert_eq!(checked_mul_div(u128::MAX, 2, 2), Err(ContractError::Overflow));
    assert_eq!(checked_mul_div(6, 7, 0), Err(ContractError::DivideByZero));
}

#[test]
fn test_position_is_bad_debt_against_simulated_close() {
    // a long whose recorded notional far exceeds what closing would return
    let deep_loss = margin_position(
        Integer::new_positive(DECIMALS),
        100,
        20_000_000,
        Direction::AddToAmm,
    );
    let r = position_is_bad_debt(
        &deep_loss,
        1_000 * DECIMALS,
        100 * DECIMALS,
        Integer::zero(),
        DECIMALS,
    )
    .unwrap();
    assert!(r);
    // the same position with a notional below the closing value is healthy
    let healthy = margin_position(
        Integer::new_positive(DECIMALS),
        100,
        9_000_000,
        Direction::AddToAmm,
    );
    let r = position_is_bad_debt(
        &healthy,
        1_000 * DECIMALS,
        100 * DECIMALS,
        Integer::zero(),
        DECIMALS,
    )
    .unwrap();
    assert!(!r);
}

#[test]
fn test_position_is_liquidated_uses_oracle_over_spread_limit() {
    let spot = Integer::new_positive(40_000);
    let oracle = Integer::new_positive(60_000);
    // the spot ratio alone is below maintenance: liquidatable
    assert!(position_is_liquidated(spot, oracle, false, 50_000));
    // over the spread limit the higher oracle ratio takes over: healthy
    assert!(!position_is_liquidated(spot, oracle, true, 50_000));
    // a lower oracle ratio never rescues the position
    assert!(position_is_liquidated(spot, Integer::new_positive(10_000), true, 50_000));
}

#[test]
fn test_require_is_not_over_spread_limit() {
    assert!(require_is_not_over_spread_limit(false).is_ok());
    assert_eq!(
        require_is_not_over_spread_limit(true),
        Err(ContractError::OverSpreadLimit)
    );
}


use margined_engine::{
    Direction, Integer, Order, Position, PositionFilter, PositionStore, Side, query_tick,
    query_ticks,
};

fn stored_position(id: u64, side: Side, entry_price: u128, trader: &str) -> Position {
    Position {
        position_id: id,
        vamm: "vamm".to_string(),
        pair: "ETH/USDC".to_string(),
        trader: trader.to_string(),
        side,
        direction: match side {
            Side::Buy => Direction::AddToAmm,
            Side::Sell => Direction::RemoveFromAmm,
        },
        size: Integer::new_positive(10),
        margin: 100,
        notional: 1_000,
        entry_price,
        take_profit: None,
        stop_loss: None,
        spread_fee: 0,
        toll_fee: 0,
        last_updated_premium_fraction: Integer::zero(),
        block_time: 0,
        expire_time: 0,
    }
}

#[test]
fn test_store_read_replace_remove() {
    let mut store = PositionStore::new();
    let p1 = stored_position(1, Side::Buy, 50, "alice");
    let p2 = stored_position(2, Side::Buy, 50, "bob");
    assert_eq!(store.store_position(&p1), 1);
    assert_eq!(store.store_position(&p2), 2);
    assert_eq!(store.len(), 2);

    let read = store.read_position(1).unwrap();
    assert_eq!(read, p1);
    assert!(store.read_position(3).is_err());

    // storing again under the same identifier replaces the record
    let mut p1b = stored_position(1, Side::Buy, 60, "alice");
    p1b.margin = 500;
    assert_eq!(store.store_position(&p1b), 1);
    assert_eq!(store.len(), 2);
    assert_eq!(store.read_position(1).unwrap().margin, 500);

    // removing decrements the tick count and drops the record
    assert_eq!(store.remove_position(&p2), 0);
    assert!(store.read_position(2).is_err());
    assert_eq!(store.len(), 1);
}

#[test]
fn test_tick_counts() {
    let mut store = PositionStore::new();
    store.store_position(&stored_position(1, Side::Buy, 50, "alice"));
    store.store_position(&stored_position(2, Side::Buy, 50, "bob"));
    store.store_position(&stored_position(3, Side::Buy, 70, "carol"));
    store.store_position(&stored_position(4, Side::Sell, 50, "dave"));
    assert_eq!(store.tick_count(Side::Buy, 50), 2);
    assert_eq!(store.tick_count(Side::Buy, 70), 1);
    assert_eq!(store.tick_count(Side::Sell, 50), 1);
    assert_eq!(store.tick_count(Side::Sell, 70), 0);
    let tick = query_tick(&store, Side::Buy, 50);
    assert_eq!(tick.total_positions, 2);
}

#[test]
fn test_pagination_defaults_and_clamps() {
    let mut store = PositionStore::new();
    let mut id: u64 = 1;
    while id <= 120 {
        store.store_position(&stored_position(id, Side::Buy, 50, "alice"));
        id += 1;
    }
    // no limit, or a zero limit, resolves to the default page of ten
    let page = store.read_positions(None, None, Some(Order::Ascending));
    assert_eq!(page.len(), 10);
    assert_eq!(page[0].position_id, 1);
    assert_eq!(page[9].position_id, 10);
    let page = store.read_positions(None, Some(0), Some(Order::Ascending));
    assert_eq!(page.len(), 10);
    // a limit above one hundred clamps to one hundred
    let page = store.read_positions(None, Some(200), Some(Order::Ascending));
    assert_eq!(page.len(), 100);
    assert_eq!(page[99].position_id, 100);
}

#[test]
fn test_pagination_excludes_start_after() {
    let mut store = PositionStore::new();
    for id in [1u64, 2, 3, 4, 5] {
        store.store_position(&stored_position(id, Side::Buy, 50, "alice"));
    }
    // ascending resumes strictly after the given identifier
    let page = store.read_positions(Some(2), Some(10), Some(Order::Ascending));
    let ids: Vec<u64> = page.iter().map(|p| p.position_id).collect();
    assert_eq!(ids, vec![3, 4, 5]);
    // descending treats it as an exclusive upper bound
    let page = store.read_positions(Some(4), Some(10), Some(Order::Descending));
    let ids: Vec<u64> = page.iter().map(|p| p.position_id).collect();
    assert_eq!(ids, vec![3, 2, 1]);
    // omitting the order scans descending
    let page = store.read_positions(None, Some(10), None);
    let ids: Vec<u64> = page.iter().map(|p| p.position_id).collect();
    assert_eq!(ids, vec![5, 4, 3, 2, 1]);
}

#[test]
fn test_query_positions_filters() {
    let mut store = PositionStore::new();
    store.store_position(&stored_position(1, Side::Buy, 50, "alice"));
    store.store_position(&stored_position(2, Side::Sell, 60, "alice"));
    store.store_position(&stored_position(3, Side::Buy, 50, "bob"));
    store.store_position(&stored_position(4, Side::Buy, 70, "alice"));

    let by_trader = store.query_positions(
        None,
        &PositionFilter::Trader("alice".to_string()),
        None,
        None,
        Some(Order::Ascending),
    );
    let ids: Vec<u64> = by_trader.iter().map(|p| p.position_id).collect();
    assert_eq!(ids, vec![1, 2, 4]);

    let by_price = store.query_positions(
        Some(Side::Buy),
        &PositionFilter::Price(50),
        None,
        None,
        Some(Order::Ascending),
    );
    let ids: Vec<u64> = by_price.iter().map(|p| p.position_id).collect();
    assert_eq!(ids, vec![1, 3]);

    let by_side = store.query_positions(
        Some(Side::Buy),
        &PositionFilter::NoFilter,
        None,
        None,
        Some(Order::Descending),
    );
    let ids: Vec<u64> = by_side.iter().map(|p| p.position_id).collect();
    assert_eq!(ids, vec![4, 3, 1]);
}

#[test]
fn test_query_ticks_ordering() {
    let mut store = PositionStore::new();
    store.store_position(&stored_position(1, Side::Buy, 50, "alice"));
    store.store_position(&stored_position(2, Side::Buy, 70, "bob"));
    store.store_position(&stored_position(3, Side::Buy, 50, "carol"));
    store.store_position(&stored_position(4, Side::Buy, 60, "dave"));
    store.store_position(&stored_position(5, Side::Sell, 55, "erin"));

    let asc = query_ticks(&store, Side::Buy, None, Some(10), Some(Order::Ascending));
    let prices: Vec<u128> = asc.ticks.iter().map(|t| t.entry_price).collect();
    assert_eq!(prices, vec![50, 60, 70]);
    let counts: Vec<u64> = asc.ticks.iter().map(|t| t.total_positions).collect();
    assert_eq!(counts, vec![2, 1, 1]);

    let desc = query_ticks(&store, Side::Buy, None, Some(10), Some(Order::Descending));
    let prices: Vec<u128> = desc.ticks.iter().map(|t| t.entry_price).collect();
    assert_eq!(prices, vec![70, 60, 50]);

    // start_after is exclusive in scan direction, and the limit caps ticks
    let after = query_ticks(&store, Side::Buy, Some(50), Some(1), Some(Order::Ascending));
    let prices: Vec<u128> = after.ticks.iter().map(|t| t.entry_price).collect();
    assert_eq!(prices, vec![60]);
}

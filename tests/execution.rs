use arbishark::execution::{ExecutionEngine, FeeModel, LatencyModel};
use arbishark::market::{OrderBook, PriceLevel, Side};

fn book() -> OrderBook {
    OrderBook {
        token_id: "tok".to_string(),
        bids: vec![PriceLevel { price: 390_000, size: 100_000_000 }],
        asks: vec![
            PriceLevel { price: 410_000, size: 200_000_000 },
            PriceLevel { price: 420_000, size: 300_000_000 },
        ],
        timestamp: 0,
    }
}

fn engine(fee_bps: u64, base_cost: u64) -> ExecutionEngine {
    ExecutionEngine::new(
        FeeModel { maker_fee_bps: 0, taker_fee_bps: fee_bps },
        LatencyModel::new(50, base_cost, 1_000),
    )
}

#[test]
fn buy_walks_two_levels_at_weighted_price() {
    let fill = engine(0, 0).execute(&book(), 250_000_000, Side::Buy, 0).unwrap();
    assert_eq!(fill.filled_size, 250_000_000);
    assert_eq!(fill.execution_price, 412_000);
    assert_eq!(fill.fee_paid, 0);
    assert_eq!(fill.total_cost, 103_000_000);
}

#[test]
fn fee_is_bps_of_notional() {
    let fill = engine(200, 0).execute(&book(), 250_000_000, Side::Buy, 0).unwrap();
    assert_eq!(fill.fee_paid, 2_060_000);
    assert_eq!(fill.total_cost, 105_060_000);
}

#[test]
fn latency_offset_is_added_to_the_price() {
    let fill = engine(0, 1_000).execute(&book(), 250_000_000, Side::Buy, -500).unwrap();
    assert_eq!(fill.execution_price, 412_500);
    assert_eq!(fill.total_cost, 103_125_000);
}

#[test]
fn thin_book_fills_partially() {
    let fill = engine(0, 0).execute(&book(), 150_000_000, Side::Sell, 0).unwrap();
    assert_eq!(fill.filled_size, 100_000_000);
    assert_eq!(fill.execution_price, 390_000);
    assert_eq!(fill.total_cost, 39_000_000);
}

#[test]
fn empty_side_or_zero_size_is_no_fill() {
    let mut b = book();
    b.bids.clear();
    assert!(engine(0, 0).execute(&b, 10_000_000, Side::Sell, 0).is_none());
    assert!(engine(0, 0).execute(&book(), 0, Side::Buy, 0).is_none());
}

#[test]
fn price_pushed_below_zero_is_no_fill() {
    let b = OrderBook {
        token_id: "cheap".to_string(),
        bids: vec![],
        asks: vec![PriceLevel { price: 100, size: 1_000_000 }],
        timestamp: 0,
    };
    assert!(engine(0, 0).execute(&b, 1_000_000, Side::Buy, -101).is_none());
    assert_eq!(engine(0, 0).execute(&b, 1_000_000, Side::Buy, -100).unwrap().execution_price, 0);
}

use arbishark::fixed::UNIT;
use arbishark::market::{Market, Side};
use arbishark::positions::{ExitConfig, ExitReason, Position, PositionError, PositionManager};

fn market(id: &str, prices: Vec<u64>) -> Market {
    Market {
        id: id.to_string(),
        question: String::new(),
        slug: String::new(),
        outcomes: vec!["Yes".to_string(), "No".to_string()],
        outcome_prices: prices,
        clob_token_ids: vec![format!("{}-yes", id), format!("{}-no", id)],
        taker_base_fee: 200,
        liquidity: 0,
        active: true,
        accepting_orders: true,
    }
}

fn position(market_id: &str, token: &str, entry_price: u64, entry_time: u64) -> Position {
    Position {
        market_id: market_id.to_string(),
        token_id: token.to_string(),
        side: Side::Buy,
        size: 10 * UNIT,
        entry_price,
        entry_time,
        entry_spread: 200_000,
    }
}

fn ledger() -> PositionManager {
    PositionManager::new(ExitConfig::default_config())
}

#[test]
fn take_profit_when_spread_narrows() {
    let mut pm = ledger();
    pm.open_position(position("m", "m-yes", 400_000, 0)).unwrap();
    // Spread 0.145: narrowed by 0.055 from entry.
    let snapshot = vec![market("m", vec![450_000, 405_000])];
    let closed = pm.check_exits(&snapshot, 10, 200);
    assert_eq!(closed.len(), 1);
    assert_eq!(closed[0].reason, ExitReason::TakeProfit);
    // exit 4.50, entry 4.00, fee 2% of 4.50 = 0.09
    assert_eq!(closed[0].pnl, 410_000);
    assert_eq!(pm.get_positions().len(), 0);
    assert_eq!(pm.trade_count(), 1);
    assert_eq!(pm.total_pnl(), 410_000);
    assert_eq!(pm.win_rate(), UNIT);
}

#[test]
fn stop_loss_when_spread_widens() {
    let mut pm = ledger();
    pm.open_position(position("m", "m-no", 400_000, 0)).unwrap();
    // Spread 0.25: widened by 0.05.
    let snapshot = vec![market("m", vec![400_000, 350_000])];
    let closed = pm.check_exits(&snapshot, 10, 0);
    assert_eq!(closed.len(), 1);
    assert_eq!(closed[0].reason, ExitReason::StopLoss);
    assert_eq!(closed[0].pnl, -500_000);
    assert_eq!(pm.win_rate(), 0);
}

#[test]
fn timeout_without_price_change() {
    let mut pm = ledger();
    pm.open_position(position("m", "m-yes", 400_000, 100)).unwrap();
    let snapshot = vec![market("m", vec![400_000, 400_000])];
    assert!(pm.check_exits(&snapshot, 3699, 0).is_empty());
    let closed = pm.check_exits(&snapshot, 3700, 0);
    assert_eq!(closed.len(), 1);
    assert_eq!(closed[0].reason, ExitReason::Timeout);
    assert_eq!(closed[0].pnl, 0);
}

#[test]
fn missing_market_only_times_out_at_entry_price() {
    let mut pm = ledger();
    pm.open_position(position("gone", "g-yes", 400_000, 0)).unwrap();
    let closed = pm.check_exits(&Vec::new(), 3600, 100);
    assert_eq!(closed.len(), 1);
    assert_eq!(closed[0].reason, ExitReason::Timeout);
    // No gross change; fee 1% of 4.00.
    assert_eq!(closed[0].pnl, -40_000);
}

#[test]
fn check_exits_twice_is_idempotent() {
    let mut pm = ledger();
    pm.open_position(position("a", "a-yes", 400_000, 0)).unwrap();
    pm.open_position(position("b", "b-yes", 400_000, 0)).unwrap();
    let snapshot = vec![market("a", vec![450_000, 405_000]), market("b", vec![400_000, 400_000])];
    let first = pm.check_exits(&snapshot, 10, 200);
    assert_eq!(first.len(), 1);
    let closed_after_first = pm.trade_count();
    let second = pm.check_exits(&snapshot, 10, 200);
    assert!(second.is_empty());
    assert_eq!(pm.trade_count(), closed_after_first);
    assert_eq!(pm.get_positions().len(), 1);
    assert_eq!(pm.get_positions()[0].market_id, "b");
}

#[test]
fn statistics_count_each_exit_once() {
    let mut pm = ledger();
    pm.open_position(position("a", "a-yes", 400_000, 0)).unwrap();
    pm.open_position(position("b", "b-no", 400_000, 0)).unwrap();
    pm.open_position(position("c", "c-yes", 400_000, 0)).unwrap();
    let snapshot = vec![
        market("a", vec![450_000, 405_000]),
        market("b", vec![400_000, 350_000]),
        market("c", vec![450_000, 405_000]),
    ];
    let closed = pm.check_exits(&snapshot, 10, 0);
    assert_eq!(closed.len(), 3);
    assert_eq!(pm.total_pnl(), 500_000 - 500_000 + 500_000);
    assert_eq!(pm.win_count(), 2);
    assert_eq!(pm.win_rate(), 666_666);
    pm.check_exits(&snapshot, 10, 0);
    assert_eq!(pm.total_pnl(), 500_000);
    assert_eq!(pm.get_closed().len(), 3);
}

#[test]
fn sell_positions_are_refused() {
    let mut pm = ledger();
    let mut p = position("m", "m-yes", 400_000, 0);
    p.side = Side::Sell;
    assert_eq!(pm.open_position(p), Err(PositionError::UnsupportedSide));
    assert!(pm.get_positions().is_empty());
}

#[test]
fn empty_ledger_statistics() {
    let pm = ledger();
    assert_eq!(pm.trade_count(), 0);
    assert_eq!(pm.win_rate(), 0);
    assert_eq!(pm.total_pnl(), 0);
}

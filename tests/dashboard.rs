use arbishark::api::{LogBuffer, PermissionStatus, handle_stats, handle_trades, push_log};
use arbishark::fixed::UNIT;
use arbishark::market::Side;
use arbishark::positions::{ExitConfig, Position, PositionManager};

#[test]
fn push_log_drops_repeats_and_keeps_last_hundred() {
    let mut logs = LogBuffer::new();
    push_log(&mut logs, "a");
    push_log(&mut logs, "a");
    push_log(&mut logs, "b");
    push_log(&mut logs, "a");
    assert_eq!(logs.lines, vec!["a", "b", "a"]);
    for k in 0..150 {
        push_log(&mut logs, &format!("line {}", k));
    }
    assert_eq!(logs.lines.len(), 100);
    assert_eq!(logs.lines[0], "line 50");
    assert_eq!(logs.lines[99], "line 149");
}

fn ledger_with_one() -> PositionManager {
    let mut pm = PositionManager::new(ExitConfig::default_config());
    pm.open_position(Position {
        market_id: "m".to_string(),
        token_id: "t".to_string(),
        side: Side::Buy,
        size: 5 * UNIT,
        entry_price: 412_000,
        entry_time: 77,
        entry_spread: 200_000,
    })
    .unwrap();
    pm
}

#[test]
fn stats_project_grant_and_ledger() {
    let pm = ledger_with_one();
    let grant = PermissionStatus { revoked: false, daily_limit: 10 * UNIT, spent_today: 2 * UNIT };
    let stats = handle_stats(Some(grant), &pm);
    assert!(stats.connected);
    assert!(stats.permission_active);
    assert_eq!(stats.daily_limit, 10 * UNIT);
    assert_eq!(stats.spent_today, 2 * UNIT);
    assert_eq!(stats.total_trades, 0);
    assert_eq!(stats.open_positions, 1);
    let none = handle_stats(None, &pm);
    assert!(!none.permission_active);
    assert_eq!(none.daily_limit, 0);
    let revoked = handle_stats(Some(PermissionStatus { revoked: true, ..grant }), &pm);
    assert!(!revoked.permission_active);
}

#[test]
fn trades_list_open_positions() {
    let rows = handle_trades(&ledger_with_one());
    assert_eq!(rows.len(), 1);
    assert_eq!(rows[0].market_id, "m");
    assert_eq!(rows[0].token_id, "t");
    assert_eq!(rows[0].side, "Buy");
    assert_eq!(rows[0].size, 5 * UNIT);
    assert_eq!(rows[0].entry_price, 412_000);
    assert_eq!(rows[0].entry_time, 77);
}

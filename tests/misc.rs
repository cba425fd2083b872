use arbishark::agent::{TradeSkip, TradingAgent};
use arbishark::execution::ExecutionResult;
use arbishark::fixed::{UNIT, isqrt};
use arbishark::health::EnvioHealth;
use arbishark::market::{Market, OrderBook, PriceLevel};
use arbishark::metrics::{AgentMetrics, StrategyMode};
use arbishark::permission_guard::PermissionGuard;
use arbishark::plugins::{NotificationPlugin, PluginAction, PluginDecision, combine_actions, combine_decisions};
use arbishark::positions::{ExitConfig, PositionManager};
use arbishark::pricing::{calc_spread, detect_arbitrage, expected_profit};
use arbishark::risk::{HaltReason, RiskConfig, RiskManager, TradeRejection};

#[test]
fn plugin_manager_decisions() {
    let plugin = NotificationPlugin::new(Some("test_token".to_string()), None);
    assert_eq!(plugin.telegram_token.as_deref(), Some("test_token"));
    assert_eq!(plugin.name(), "notifications");
    assert_eq!(plugin.on_error(), PluginAction::Skip);
    let d = combine_decisions(vec![
        PluginDecision::Continue,
        PluginDecision::Skip("Negative sentiment".to_string()),
        PluginDecision::ModifySize(3),
    ]);
    assert!(matches!(d, PluginDecision::Skip(ref s) if s == "Negative sentiment"));
    assert!(matches!(combine_decisions(vec![PluginDecision::Continue]), PluginDecision::Continue));
    assert_eq!(combine_actions(&vec![PluginAction::Retry, PluginAction::Halt]), PluginAction::Halt);
    assert_eq!(combine_actions(&vec![PluginAction::Retry]), PluginAction::Skip);
    assert_eq!(combine_actions(&Vec::new()), PluginAction::Skip);
}

#[test]
fn health_from_probe() {
    let h = EnvioHealth::from_probe(12, 900, 1_000, 1_004);
    assert_eq!(h.data_delay_ms, 4_000);
    assert!(h.is_healthy);
    let stale = EnvioHealth::from_probe(12, 900, 1_000, 1_005);
    assert_eq!(stale.data_delay_ms, 5_000);
    assert!(!stale.is_healthy);
}

#[test]
fn test_metrics_collection() {
    let mut m = AgentMetrics::initial(0);
    m.record_trade(1_500_000, 1_000, 5);
    assert_eq!(m.trades_total, 1);
    assert_eq!(m.total_pnl, 1_500_000);
    assert!(m.win_rate > 0);
    assert_eq!(m.gas_saved_vs_l1, 9_000);
    m.record_trade(-2_000_000, 0, 6);
    assert_eq!(m.win_rate, 500_000);
    assert_eq!(m.avg_profit_per_trade, -250_000);
    assert_eq!(m.last_trade_time, Some(6));
}

#[test]
fn test_spending_tracking() {
    let mut m = AgentMetrics::initial(0);
    m.update_spending(3 * UNIT, 1);
    assert_eq!(m.daily_spent, 3 * UNIT);
    assert_eq!(m.remaining_allowance, 7 * UNIT as i64);
    assert_eq!(m.strategy_mode, StrategyMode::Normal);
    m.update_spending(5 * UNIT, 2);
    assert_eq!(m.strategy_mode, StrategyMode::Conservative);
    assert_eq!(m.strategy_mode.name(), "Conservative");
    m.reset_daily(3);
    assert_eq!(m.remaining_allowance, 10 * UNIT as i64);
    m.update_spending(UNIT, 4);
    assert_eq!(m.strategy_mode, StrategyMode::Aggressive);
    assert_eq!(m.snapshot(0, 10).uptime_seconds, 10);
}

#[test]
fn pricing_formulas() {
    assert_eq!(calc_spread(510_000, 500_000), 20_000);
    assert_eq!(calc_spread(490_000, 500_000), -20_000);
    assert_eq!(calc_spread(1, 3), -666_667);
    assert_eq!(calc_spread(500_000, 0), 0);
    assert!(detect_arbitrage(510_000, 500_000, 10_000));
    assert!(!detect_arbitrage(510_000, 500_000, 20_000));
    // (0.51 - 0.50) * 100 - (51 + 50) * 1% = 1.00 - 1.01
    assert_eq!(expected_profit(100 * UNIT, 510_000, 500_000, 100), -10_000);
}

#[test]
fn market_listing_and_prices() {
    let tokens = vec!["y".to_string(), "n".to_string()];
    let outcomes = vec!["Yes".to_string(), "No".to_string()];
    let mut m = Market::from_listing("1".to_string(), "q".to_string(), "s".to_string(), outcomes.clone(), tokens)
        .unwrap();
    assert_eq!(m.outcome_prices, vec![500_000, 500_000]);
    assert_eq!(m.taker_base_fee, 200);
    assert!(Market::from_listing("2".to_string(), String::new(), String::new(), outcomes, vec!["y".to_string()])
        .is_none());
    assert!(!m.apply_prices(vec![400_000, 0]));
    assert!(!m.apply_prices(vec![400_000]));
    assert!(m.apply_prices(vec![400_000, 410_000]));
    assert_eq!(m.outcome_prices, vec![400_000, 410_000]);
    let book = OrderBook {
        token_id: "y".to_string(),
        bids: vec![PriceLevel { price: 490_000, size: 1 }],
        asks: vec![PriceLevel { price: 510_001, size: 1 }],
        timestamp: 0,
    };
    assert_eq!(book.midpoint(), Some(500_000));
    let empty = OrderBook { token_id: "y".to_string(), bids: vec![], asks: book.asks.clone(), timestamp: 0 };
    assert_eq!(empty.midpoint(), None);
}

fn agent(limit: u64) -> TradingAgent {
    TradingAgent::new(
        PermissionGuard::new(limit),
        RiskManager::new(RiskConfig::default(), 100 * UNIT as i64),
        PositionManager::new(ExitConfig::default_config()),
    )
}

#[test]
fn settle_fill_books_position_and_spend_together() {
    let mut a = agent(10 * UNIT);
    let fill = ExecutionResult { filled_size: 5 * UNIT, execution_price: 412_000, total_cost: 2_101_200, fee_paid: 41_200 };
    assert_eq!(a.settle_fill("m".to_string(), "t".to_string(), fill, 9, 200_000), Ok(()));
    assert_eq!(a.guard.spent_today, 2_101_200);
    assert_eq!(a.ledger.get_positions().len(), 1);
    assert_eq!(a.ledger.get_positions()[0].entry_price, 412_000);
    let big = ExecutionResult { total_cost: 8 * UNIT, ..fill };
    assert_eq!(
        a.settle_fill("m".to_string(), "t".to_string(), big, 9, 200_000),
        Err(TradeSkip::InsufficientAllowance)
    );
    assert_eq!(a.guard.spent_today, 2_101_200);
    assert_eq!(a.ledger.get_positions().len(), 1);
}

#[test]
fn authorize_asks_budget_then_risk() {
    let mut a = agent(10 * UNIT);
    assert_eq!(a.authorize(11 * UNIT, 5 * UNIT, 2000 * UNIT), Err(TradeSkip::InsufficientAllowance));
    assert_eq!(a.authorize(5 * UNIT, 5 * UNIT, 500 * UNIT), Err(TradeSkip::Risk(TradeRejection::InsufficientLiquidity)));
    assert_eq!(a.authorize(5 * UNIT, 5 * UNIT, 2000 * UNIT), Ok(()));
    a.risk.activate_circuit_breaker();
    assert_eq!(
        a.authorize(5 * UNIT, 5 * UNIT, 2000 * UNIT),
        Err(TradeSkip::Risk(TradeRejection::Halted(HaltReason::CircuitBreaker)))
    );
    assert!(a.risk.can_record(-(UNIT as i64)));
    assert!(!a.risk.can_record(i64::MIN));
}

#[test]
fn integer_square_root() {
    assert_eq!(isqrt(0), 0);
    assert_eq!(isqrt(15), 3);
    assert_eq!(isqrt(16), 4);
    assert_eq!(isqrt(u128::MAX), u64::MAX as u128);
}

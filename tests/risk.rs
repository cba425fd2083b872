use arbishark::fixed::UNIT;
use arbishark::risk::{HaltReason, RiskConfig, RiskManager, TradeRejection};

fn dollars(n: i64) -> i64 {
    n * UNIT as i64
}

#[test]
fn test_drawdown_limit() {
    let config = RiskConfig {
        max_drawdown: 100_000, // 10%
        ..Default::default()
    };
    let mut manager = RiskManager::new(config, dollars(100));

    // Lose 11% - should halt
    manager.record_trade(dollars(-11));

    let (should_halt, reason) = manager.should_halt();
    assert!(should_halt);
    assert!(reason.unwrap().message().contains("drawdown"));
}

#[test]
fn test_consecutive_losses() {
    let config = RiskConfig {
        max_consecutive_losses: 3,
        ..Default::default()
    };
    let mut manager = RiskManager::new(config, dollars(100));

    // 3 losses in a row
    manager.record_trade(dollars(-1));
    manager.record_trade(dollars(-1));
    manager.record_trade(dollars(-1));

    let (should_halt, _) = manager.should_halt();
    assert!(should_halt);
}

#[test]
fn test_trade_validation() {
    let manager = RiskManager::new(RiskConfig::default(), dollars(100));

    // Valid trade
    assert!(manager.validate_trade(50 * UNIT, 2000 * UNIT).is_ok());

    // Trade too large
    assert!(manager.validate_trade(150 * UNIT, 2000 * UNIT).is_err());

    // Insufficient liquidity
    assert!(manager.validate_trade(50 * UNIT, 500 * UNIT).is_err());
}

#[test]
fn drawdown_of_exactly_the_limit_does_not_halt() {
    let config = RiskConfig { max_drawdown: 100_000, ..Default::default() };
    let mut manager = RiskManager::new(config, dollars(100));
    manager.record_trade(dollars(-10));
    assert_eq!(manager.should_halt(), (false, None));
}

#[test]
fn two_losses_under_a_limit_of_three_do_not_halt() {
    let config = RiskConfig { max_consecutive_losses: 3, ..Default::default() };
    let mut manager = RiskManager::new(config, dollars(100));
    manager.record_trade(dollars(-1));
    manager.record_trade(dollars(-1));
    assert_eq!(manager.should_halt(), (false, None));
    assert_eq!(manager.consecutive_losses, 2);
    manager.record_trade(dollars(1));
    assert_eq!(manager.consecutive_losses, 0);
}

#[test]
fn record_trade_updates_balance_peak_and_daily_loss() {
    let mut manager = RiskManager::new(RiskConfig::default(), dollars(100));
    manager.record_trade(dollars(5));
    assert_eq!(manager.current_balance, dollars(105));
    assert_eq!(manager.peak_balance, dollars(105));
    manager.record_trade(dollars(-3));
    assert_eq!(manager.current_balance, dollars(102));
    assert_eq!(manager.peak_balance, dollars(105));
    assert_eq!(manager.daily_loss, 3 * UNIT);
    manager.reset_daily();
    assert_eq!(manager.daily_loss, 0);
    assert_eq!(manager.current_balance, dollars(102));
}

#[test]
fn daily_loss_over_the_limit_halts() {
    let config = RiskConfig { max_daily_loss: 2 * UNIT, max_consecutive_losses: 100, ..Default::default() };
    let mut manager = RiskManager::new(config, dollars(1000));
    manager.record_trade(dollars(-3));
    assert_eq!(manager.should_halt(), (true, Some(HaltReason::DailyLoss)));
}

#[test]
fn circuit_breaker_takes_precedence_and_clears() {
    let config = RiskConfig { max_drawdown: 100_000, ..Default::default() };
    let mut manager = RiskManager::new(config, dollars(100));
    manager.record_trade(dollars(-50));
    manager.activate_circuit_breaker();
    assert_eq!(manager.should_halt(), (true, Some(HaltReason::CircuitBreaker)));
    manager.deactivate_circuit_breaker();
    assert_eq!(manager.should_halt(), (true, Some(HaltReason::MaxDrawdown)));
}

#[test]
fn halted_manager_rejects_valid_trade_with_reason() {
    let mut manager = RiskManager::new(RiskConfig::default(), dollars(100));
    manager.activate_circuit_breaker();
    assert_eq!(
        manager.validate_trade(50 * UNIT, 2000 * UNIT),
        Err(TradeRejection::Halted(HaltReason::CircuitBreaker))
    );
    assert_eq!(manager.validate_trade(150 * UNIT, 2000 * UNIT), Err(TradeRejection::PositionTooLarge));
    assert_eq!(manager.validate_trade(50 * UNIT, 500 * UNIT), Err(TradeRejection::InsufficientLiquidity));
}

#[test]
fn volatile_returns_halt() {
    // Returns of +20% and -20% on a balance of 100 have a standard deviation of 20%.
    let config = RiskConfig { max_consecutive_losses: 100, max_daily_loss: 1_000 * UNIT, ..Default::default() };
    let mut manager = RiskManager::new(config, dollars(100));
    manager.record_trade(dollars(20));
    manager.record_trade(dollars(-20));
    assert_eq!(manager.current_balance, dollars(100));
    assert_eq!(manager.should_halt(), (true, Some(HaltReason::Volatility)));
}

#[test]
fn calm_returns_do_not_halt() {
    // +10% and -10% give a standard deviation of 10%, under the default 15%.
    let config = RiskConfig { max_consecutive_losses: 100, max_daily_loss: 1_000 * UNIT, ..Default::default() };
    let mut manager = RiskManager::new(config, dollars(200));
    manager.record_trade(dollars(20));
    manager.record_trade(dollars(-20));
    assert_eq!(manager.should_halt(), (false, None));
}

#[test]
fn recent_trades_keep_the_last_hundred() {
    let mut manager = RiskManager::new(RiskConfig::default(), dollars(100));
    for k in 0..105 {
        manager.record_trade(k);
    }
    assert_eq!(manager.recent_trades.len(), 100);
    assert_eq!(manager.recent_trades[0], 5);
    assert_eq!(manager.recent_trades[99], 104);
}

#[test]
fn halt_messages_name_their_cause() {
    assert_eq!(HaltReason::CircuitBreaker.message(), "Circuit breaker activated");
    assert_eq!(HaltReason::Volatility.message(), "Market too volatile");
}

#[test]
fn status_reports_state() {
    let mut manager = RiskManager::new(RiskConfig::default(), dollars(100));
    manager.record_trade(dollars(-2));
    let status = manager.get_status();
    assert_eq!(status.current_balance, dollars(98));
    assert_eq!(status.peak_balance, dollars(100));
    assert_eq!(status.daily_loss, 2 * UNIT);
    assert_eq!(status.consecutive_losses, 1);
    assert!(!status.is_halted);
    assert_eq!(status.halt_reason, None);
}

#[test]
fn status_reports_drawdown_and_volatility() {
    let config = RiskConfig { max_consecutive_losses: 100, max_daily_loss: 1_000 * UNIT, ..Default::default() };
    let mut manager = RiskManager::new(config, dollars(100));
    assert_eq!(manager.get_status().volatility, 0);
    manager.record_trade(dollars(20));
    manager.record_trade(dollars(-20));
    let status = manager.get_status();
    assert_eq!(status.drawdown, 166_666);
    assert_eq!(status.volatility, 200_000);
    assert!(status.is_halted);
    assert_eq!(status.halt_reason, Some(HaltReason::Volatility));
}

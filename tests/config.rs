use arbishark::config::{ArbitrumConfig, Config, ConfigError, ConfigInvalid, SafetyConfig, StrategyConfig};
use arbishark::fixed::UNIT;

#[test]
fn test_default_config() {
    let config = Config::default_config();
    assert_eq!(config.permission.daily_limit_usdc, 10 * UNIT);
    assert_eq!(config.trading.min_spread_threshold, 20_000);
}

#[test]
fn default_config_is_valid() {
    assert_eq!(Config::default_config().validate(), Ok(()));
}

#[test]
fn zero_allowance_is_invalid() {
    let mut config = Config::default_config();
    config.permission.daily_limit_usdc = 0;
    assert_eq!(config.validate(), Err(ConfigInvalid::NonPositiveDailyLimit));
    assert_eq!(ConfigInvalid::NonPositiveDailyLimit.message(), "daily_limit_usdc must be positive");
}

#[test]
fn demo_mode_needs_arbitrum() {
    let mut config = Config::default_config();
    config.arbitrum = None;
    assert_eq!(config.validate(), Err(ConfigInvalid::MissingArbitrum));
    config.mode = Some("live".to_string());
    assert_eq!(config.validate(), Ok(()));
    config.mode = None;
    assert_eq!(config.validate(), Ok(()));
}

#[test]
fn section_defaults() {
    let s = SafetyConfig::default();
    assert_eq!(s.max_data_delay_ms, 5000);
    assert_eq!(s.max_consecutive_failures, 3);
    let st = StrategyConfig::default();
    assert_eq!(st.conservative_threshold, 300_000);
    assert_eq!(st.aggressive_min_edge, 10_000);
    let a = ArbitrumConfig::default();
    assert_eq!(a.mainnet_chain_id, 42161);
    assert_eq!(a.sepolia_rpc, "https://sepolia-rollup.arbitrum.io/rpc");
}

#[test]
fn config_error_messages() {
    let e = ConfigError::FileNotFound("config.toml".to_string(), "missing".to_string());
    assert_eq!(e.message(), "Config file not found: config.toml (missing)");
    assert_eq!(ConfigError::ParseError("bad".to_string()).message(), "Config parse error: bad");
}

//! Agent settings, their defaults, and their validation.
//!
//! Money is in millionths of a dollar and ratios in millionths (`UNIT` is 100%).
use vstd::prelude::*;
use vstd::string::StringExecFns;

use crate::fixed::UNIT;

verus! {

/// All settings of the agent.
#[derive(Debug, Clone)]
pub struct Config {
    pub permission: PermissionConfig,
    pub trading: TradingConfig,
    pub timing: TimingConfig,
    pub api: ApiConfig,
    pub logging: LoggingConfig,
    pub strategy: StrategyConfig,
    pub safety: SafetyConfig,
    pub mode: Option<String>,
    pub arbitrum: Option<ArbitrumConfig>,
}

/// The spending allowance granted to the agent.
#[derive(Debug, Clone)]
pub struct PermissionConfig {
    pub daily_limit_usdc: u64,
    pub duration_days: u32,
    pub token: String,
}

#[derive(Debug, Clone, Copy)]
pub struct TradingConfig {
    pub min_spread_threshold: u64,
    pub min_profit_threshold: u64,
    pub trade_size: u64,
    pub max_position_value: u64,
}

#[derive(Debug, Clone, Copy)]
pub struct TimingConfig {
    pub poll_interval_secs: u64,
    pub position_timeout_secs: u64,
    pub latency_base_ms: u64,
    pub adverse_selection_std: u64,
}

#[derive(Debug, Clone)]
pub struct ApiConfig {
    pub gamma_url: String,
    pub clob_url: String,
    pub websocket_url: String,
    pub market_limit: u32,
}

#[derive(Debug, Clone)]
pub struct LoggingConfig {
    pub level: String,
    pub colorize: bool,
}

/// Strategy settings for adapting to the remaining allowance.
#[derive(Debug, Clone, Copy)]
pub struct StrategyConfig {
    /// Remaining-allowance share below which the agent is conservative.
    pub conservative_threshold: u64,
    /// Remaining-allowance share above which the agent is aggressive.
    pub aggressive_threshold: u64,
    /// Minimum edge required in conservative mode.
    pub conservative_min_edge: u64,
    /// Minimum edge required in normal mode.
    pub normal_min_edge: u64,
    /// Minimum edge required in aggressive mode.
    pub aggressive_min_edge: u64,
}

impl Default for StrategyConfig {
    fn default() -> (r: StrategyConfig)
        ensures
            r.conservative_threshold == 300_000,
            r.aggressive_threshold == 700_000,
            r.conservative_min_edge == 50_000,
            r.normal_min_edge == 20_000,
            r.aggressive_min_edge == 10_000,
    {
        StrategyConfig {
            conservative_threshold: 300_000,
            aggressive_threshold: 700_000,
            conservative_min_edge: 50_000,
            normal_min_edge: 20_000,
            aggressive_min_edge: 10_000,
        }
    }
}

/// Settings for handling failures.
#[derive(Debug, Clone, Copy)]
pub struct SafetyConfig {
    /// Maximum data delay (ms) before suspending trading.
    pub max_data_delay_ms: u64,
    /// Maximum consecutive API failures before safe mode.
    pub max_consecutive_failures: u32,
    /// Cooldown period (seconds) in safe mode.
    pub safe_mode_cooldown_secs: u64,
    /// Assume zero allowance if the permission query fails.
    pub assume_zero_on_perm_error: bool,
}

impl Default for SafetyConfig {
    fn default() -> (r: SafetyConfig)
        ensures
            r.max_data_delay_ms == 5000,
            r.max_consecutive_failures == 3,
            r.safe_mode_cooldown_secs == 300,
            r.assume_zero_on_perm_error,
    {
        SafetyConfig {
            max_data_delay_ms: 5000,
            max_consecutive_failures: 3,
            safe_mode_cooldown_secs: 300,
            assume_zero_on_perm_error: true,
        }
    }
}

/// Arbitrum network settings.
#[derive(Debug, Clone)]
pub struct ArbitrumConfig {
    pub sepolia_rpc: String,
    pub mainnet_rpc: String,
    pub sepolia_chain_id: u64,
    pub mainnet_chain_id: u64,
    pub envio_endpoint: String,
    pub usdc_e_address: String,
    pub demo_contract_address: String,
}

impl Default for ArbitrumConfig {
    fn default() -> (r: ArbitrumConfig)
        ensures
            r.sepolia_rpc@ == "https://sepolia-rollup.arbitrum.io/rpc"@,
            r.mainnet_rpc@ == "https://arb1.arbitrum.io/rpc"@,
            r.sepolia_chain_id == 421614,
            r.mainnet_chain_id == 42161,
            r.envio_endpoint@ == "https://indexer.bigdevenergy.link/your-project/v1/graphql"@,
            r.usdc_e_address@ == "0xFF970A61A04b1cA14834A43f5dE4533eBDDB5CC8"@,
            r.demo_contract_address@ == "0x0000000000000000000000000000000000000000"@,
    {
        ArbitrumConfig {
            sepolia_rpc: "https://sepolia-rollup.arbitrum.io/rpc".to_owned(),
            mainnet_rpc: "https://arb1.arbitrum.io/rpc".to_owned(),
            sepolia_chain_id: 421614,
            mainnet_chain_id: 42161,
            envio_endpoint: "https://indexer.bigdevenergy.link/your-project/v1/graphql".to_owned(),
            usdc_e_address: "0xFF970A61A04b1cA14834A43f5dE4533eBDDB5CC8".to_owned(),
            demo_contract_address: "0x0000000000000000000000000000000000000000".to_owned(),
        }
    }
}

/// Why a configuration could not be read.
#[derive(Debug, Clone)]
pub enum ConfigError {
    /// The file (first) could not be read, for the reason given second.
    FileNotFound(String, String),
    /// The file's contents are not a valid configuration.
    ParseError(String),
}

pub open spec fn config_error_message(e: ConfigError) -> Seq<char> {
    match e {
        ConfigError::FileNotFound(path, err) => "Config file not found: "@ + path@ + " ("@ + err@
            + ")"@,
        ConfigError::ParseError(err) => "Config parse error: "@ + err@,
    }
}

impl ConfigError {
    /// A human-readable description of the error.
    pub fn message(&self) -> (r: String)
        ensures
            r@ == config_error_message(*self),
    {
        match self {
            ConfigError::FileNotFound(path, err) => {
                let mut s = "Config file not found: ".to_owned();
                s.append(path.as_str());
                s.append(" (");
                s.append(err.as_str());
                s.append(")");
                s
            },
            ConfigError::ParseError(err) => {
                let mut s = "Config parse error: ".to_owned();
                s.append(err.as_str());
                s
            },
        }
    }
}

/// Why a configuration is unusable.
#[derive(Debug, Clone, Copy, PartialEq, Eq, Structural)]
pub enum ConfigInvalid {
    /// The daily allowance is zero.
    NonPositiveDailyLimit,
    /// The demo mode needs Arbitrum settings.
    MissingArbitrum,
}

impl ConfigInvalid {
    pub fn message(&self) -> (r: String)
        ensures
            r@ == match *self {
                ConfigInvalid::NonPositiveDailyLimit => "daily_limit_usdc must be positive"@,
                ConfigInvalid::MissingArbitrum => "arbitrum config required for arbitrum_demo mode"@,
            },
    {
        match self {
            ConfigInvalid::NonPositiveDailyLimit => "daily_limit_usdc must be positive".to_owned(),
            ConfigInvalid::MissingArbitrum => "arbitrum config required for arbitrum_demo mode".to_owned(),
        }
    }
}

impl Config {
    /// The built-in configuration: a $10 daily allowance, 2% spread threshold,
    /// $5 trades, five-second polling, and the Arbitrum demo mode.
    pub fn default_config() -> (r: Config)
        ensures
            r.permission.daily_limit_usdc == 10 * UNIT,
            r.permission.duration_days == 30,
            r.permission.token@ == "USDC"@,
            r.trading.min_spread_threshold == 20_000,
            r.trading.min_profit_threshold == 100_000,
            r.trading.trade_size == 5 * UNIT,
            r.trading.max_position_value == 50 * UNIT,
            r.timing.poll_interval_secs == 5,
            r.timing.position_timeout_secs == 3600,
            r.timing.latency_base_ms == 50,
            r.timing.adverse_selection_std == 1_000,
            r.api.gamma_url@ == "https://gamma-api.polymarket.com/events"@,
            r.api.clob_url@ == "https://clob.polymarket.com"@,
            r.api.websocket_url@ == "wss://ws-subscriptions-clob.polymarket.com/ws"@,
            r.api.market_limit == 20,
            r.logging.level@ == "info"@,
            r.logging.colorize,
            r.strategy.normal_min_edge == 20_000,
            r.safety.max_consecutive_failures == 3,
            r.mode matches Some(m) && m@ == "arbitrum_demo"@,
            r.arbitrum matches Some(a) && a.sepolia_chain_id == 421614,
    {
        Config {
            permission: PermissionConfig {
                daily_limit_usdc: 10 * UNIT,
                duration_days: 30,
                token: "USDC".to_owned(),
            },
            trading: TradingConfig {
                min_spread_threshold: 20_000,
                min_profit_threshold: 100_000,
                trade_size: 5 * UNIT,
                max_position_value: 50 * UNIT,
            },
            timing: TimingConfig {
                poll_interval_secs: 5,
                position_timeout_secs: 3600,
                latency_base_ms: 50,
                adverse_selection_std: 1_000,
            },
            api: ApiConfig {
                gamma_url: "https://gamma-api.polymarket.com/events".to_owned(),
                clob_url: "https://clob.polymarket.com".to_owned(),
                websocket_url: "wss://ws-subscriptions-clob.polymarket.com/ws".to_owned(),
                market_limit: 20,
            },
            logging: LoggingConfig { level: "info".to_owned(), colorize: true },
            strategy: StrategyConfig::default(),
            safety: SafetyConfig::default(),
            mode: Some("arbitrum_demo".to_owned()),
            arbitrum: Some(ArbitrumConfig::default()),
        }
    }

    /// Checks that the allowance is positive and that the Arbitrum demo mode
    /// has its settings.
    pub fn validate(&self) -> (r: Result<(), ConfigInvalid>)
        ensures
            r == (if self.permission.daily_limit_usdc == 0 {
                Err(ConfigInvalid::NonPositiveDailyLimit)
            } else if self.mode matches Some(m) && m@ == "arbitrum_demo"@ && self.arbitrum is None {
                Err(ConfigInvalid::MissingArbitrum)
            } else {
                Ok(())
            }),
    {
        if self.permission.daily_limit_usdc == 0 {
            return Err(ConfigInvalid::NonPositiveDailyLimit);
        }
        match &self.mode {
            Some(mode) => {
                let demo = "arbitrum_demo".to_owned();
                if *mode == demo && self.arbitrum.is_none() {
                    return Err(ConfigInvalid::MissingArbitrum);
                }
            },
            None => {},
        }
        Ok(())
    }
}

} // verus!
